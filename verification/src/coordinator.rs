//! The top-level coordinator: per-pid watcher states, the lifecycle channel,
//! the shared event channel, and the blocking consumption step.
//!
//! The platform layer owns the native run loop and the threads; every
//! decision — what a lifecycle event does to the per-pid states, which
//! pending work is drained first, and when to block — is taken here. One
//! call of [`Watcher::next_request_step`] is one turn of the consumption
//! loop of `next_request`: the platform layer calls it, performs the step it
//! was told (spawn a registration thread, hand the caller an event, or run
//! the native run loop until some source fires), and calls it again.

use vstd::prelude::*;

use std::collections::HashMap;

use crate::apps::{spec_app_qualifies, ProcessInfo};
use crate::event::WindowEvent;
use crate::watch;

verus! {

broadcast use vstd::std_specs::hash::group_hash_axioms;

/// What happened to a watched process.
#[derive(Debug)]
pub enum AppEventKind {
    /// The process appeared in the live-process list (or was already running
    /// when watching began).
    Launched,
    /// The process left the live-process list.
    Terminated,
    /// A background registration finished and built this watcher.
    Registered(watch::Watcher),
}

/// An internal lifecycle event; never exposed to the caller.
#[derive(Debug)]
pub struct AppEvent {
    /// What happened.
    pub kind: AppEventKind,
    /// The process it happened to.
    pub pid: i32,
}

/// The bridge between lifecycle producers and the consumption loop: the
/// channel the process-list observer and the registration threads post into,
/// and the wakeable run-loop source that makes the blocking loop notice.
///
/// The observation mechanism behind the process list is not itself a run-loop
/// source, so posting alone would leave a blocked run loop blind; producers
/// signal the dummy source after posting, and the platform layer wakes the
/// run loop.
#[derive(Debug)]
pub struct Context {
    pending: Vec<AppEvent>,
    wake_signaled: bool,
}

/// The lifecycle events for the qualifying processes among `apps`, in order.
pub open spec fn spec_launched_events(apps: Seq<ProcessInfo>) -> Seq<AppEvent>
    decreases apps.len(),
{
    if apps.len() == 0 {
        Seq::empty()
    } else {
        spec_launched_events(apps.drop_last()) + (if spec_app_qualifies(apps.last()) {
            seq![AppEvent { kind: AppEventKind::Launched, pid: apps.last().pid }]
        } else {
            Seq::empty()
        })
    }
}

/// The termination events for the qualifying processes among `apps`, in
/// order.
pub open spec fn spec_terminated_events(apps: Seq<ProcessInfo>) -> Seq<AppEvent>
    decreases apps.len(),
{
    if apps.len() == 0 {
        Seq::empty()
    } else {
        spec_terminated_events(apps.drop_last()) + (if spec_app_qualifies(apps.last()) {
            seq![AppEvent { kind: AppEventKind::Terminated, pid: apps.last().pid }]
        } else {
            Seq::empty()
        })
    }
}

impl Context {
    /// The lifecycle events posted and not yet consumed, oldest first.
    pub closed spec fn pending(&self) -> Seq<AppEvent> {
        self.pending@
    }

    /// Whether the wake source has been signalled since it was last taken.
    pub closed spec fn wake_signaled(&self) -> bool {
        self.wake_signaled
    }

    /// A fresh channel with its wake source unsignalled.
    pub fn new() -> (r: Context)
        ensures
            r.pending() == Seq::<AppEvent>::empty(),
            !r.wake_signaled(),
    {
        Context { pending: Vec::new(), wake_signaled: false }
    }

    /// Post one lifecycle event. Signalling is separate, as it is natively.
    pub fn push(&mut self, e: AppEvent)
        ensures
            final(self).pending() == old(self).pending().push(e),
            final(self).wake_signaled() == old(self).wake_signaled(),
    {
        self.pending.push(e);
    }

    /// Signal the wake source, so a blocked run loop returns promptly.
    pub fn signal(&mut self)
        ensures
            final(self).pending() == old(self).pending(),
            final(self).wake_signaled(),
    {
        self.wake_signaled = true;
    }

    /// Consume the wake signal, as the native run loop does when the source
    /// fires.
    pub fn take_wake(&mut self) -> (r: bool)
        ensures
            r == old(self).wake_signaled(),
            !final(self).wake_signaled(),
            final(self).pending() == old(self).pending(),
    {
        let r = self.wake_signaled;
        self.wake_signaled = false;
        r
    }

    /// Whether a lifecycle event is waiting.
    pub fn has_pending(&self) -> (r: bool)
        ensures
            r == (self.pending().len() > 0),
    {
        self.pending.len() > 0
    }

    /// Take the oldest pending lifecycle event, if any.
    pub fn take_next(&mut self) -> (r: Option<AppEvent>)
        ensures
            old(self).pending().len() == 0 ==> r is None && *final(self) == *old(self),
            old(self).pending().len() > 0 ==> (r == Some(old(self).pending()[0])
                && final(self).pending() == old(self).pending().drop_first()
                && final(self).wake_signaled() == old(self).wake_signaled()),
    {
        if self.pending.len() > 0 {
            let e = self.pending.remove(0);
            proof {
                assert(old(self).pending@.remove(0) =~= old(self).pending@.drop_first());
            }
            Some(e)
        } else {
            None
        }
    }

    /// Post a launch event for every qualifying process in a snapshot.
    pub fn post_launched(&mut self, apps: &Vec<ProcessInfo>)
        ensures
            final(self).pending() == old(self).pending() + spec_launched_events(apps@),
            final(self).wake_signaled() == old(self).wake_signaled(),
    {
        let mut i: usize = 0;
        while i < apps.len()
            invariant
                i <= apps@.len(),
                self.pending() == old(self).pending() + spec_launched_events(apps@.take(i as int)),
                self.wake_signaled() == old(self).wake_signaled(),
            decreases apps@.len() - i,
        {
            if crate::apps::app_qualifies(&apps[i]) {
                self.push(AppEvent { kind: AppEventKind::Launched, pid: apps[i].pid });
            }
            proof {
                assert(apps@.take(i + 1 as int).drop_last() =~= apps@.take(i as int));
                assert(apps@.take(i + 1 as int).last() == apps@[i as int]);
                assert(self.pending() =~= old(self).pending() + spec_launched_events(
                    apps@.take(i + 1 as int),
                ));
            }
            i = i + 1;
        }
        proof {
            assert(apps@.take(apps@.len() as int) =~= apps@);
        }
    }

    /// Post a termination event for every qualifying process in a snapshot.
    pub fn post_terminated(&mut self, apps: &Vec<ProcessInfo>)
        ensures
            final(self).pending() == old(self).pending() + spec_terminated_events(apps@),
            final(self).wake_signaled() == old(self).wake_signaled(),
    {
        let mut i: usize = 0;
        while i < apps.len()
            invariant
                i <= apps@.len(),
                self.pending() == old(self).pending() + spec_terminated_events(
                    apps@.take(i as int),
                ),
                self.wake_signaled() == old(self).wake_signaled(),
            decreases apps@.len() - i,
        {
            if crate::apps::app_qualifies(&apps[i]) {
                self.push(AppEvent { kind: AppEventKind::Terminated, pid: apps[i].pid });
            }
            proof {
                assert(apps@.take(i + 1 as int).drop_last() =~= apps@.take(i as int));
                assert(apps@.take(i + 1 as int).last() == apps@[i as int]);
                assert(self.pending() =~= old(self).pending() + spec_terminated_events(
                    apps@.take(i + 1 as int),
                ));
            }
            i = i + 1;
        }
        proof {
            assert(apps@.take(apps@.len() as int) =~= apps@);
        }
    }

    /// Digest one change of the live-process list: post a launch per
    /// qualifying new process and a termination per qualifying old one, and
    /// if anything was posted, signal the wake source.
    pub fn process_change(
        &mut self,
        new_apps: &Vec<ProcessInfo>,
        old_apps: &Vec<ProcessInfo>,
    ) -> (sent: bool)
        ensures
            final(self).pending() == old(self).pending() + spec_launched_events(new_apps@)
                + spec_terminated_events(old_apps@),
            sent == (spec_launched_events(new_apps@).len() + spec_terminated_events(
                old_apps@,
            ).len() > 0),
            final(self).wake_signaled() == (old(self).wake_signaled() || sent),
    {
        let before = self.pending.len();
        self.post_launched(new_apps);
        self.post_terminated(old_apps);
        let sent = self.pending.len() > before;
        if sent {
            self.signal();
        }
        sent
    }
}

/// The per-pid registration state machine.
///
/// A pid in `Registering` has a background registration in flight; a pid in
/// `Registered` holds its live watcher; a pid absent from the map holds no
/// resources at all.
#[derive(Debug)]
pub enum WatcherState {
    /// Registration for the pid is in flight on a background thread.
    Registering(i32),
    /// The pid's watcher is registered and live.
    Registered(watch::Watcher),
}

/// What one lifecycle event does to the per-pid states.
///
/// A launch (re)starts registration; a termination drops the pid's state
/// outright, watcher and all; a finished registration is kept only if the
/// pid is still tracked — if it terminated while registration was in flight,
/// the watcher is discarded.
pub open spec fn spec_apply_lifecycle(
    states: Map<i32, WatcherState>,
    e: AppEvent,
) -> Map<i32, WatcherState> {
    match e.kind {
        AppEventKind::Launched => states.insert(e.pid, WatcherState::Registering(e.pid)),
        AppEventKind::Terminated => states.remove(e.pid),
        AppEventKind::Registered(w) => if states.contains_key(e.pid) {
            states.insert(e.pid, WatcherState::Registered(w))
        } else {
            states
        },
    }
}

/// The coordinator's whole observable state.
#[verifier::ext_equal]
pub struct CoordModel {
    /// Lifecycle events posted and not yet handled, oldest first.
    pub lifecycle: Seq<AppEvent>,
    /// Window events posted and not yet returned, oldest first.
    pub events: Seq<WindowEvent>,
    /// The per-pid registration states.
    pub states: Map<i32, WatcherState>,
}

/// What one consumption turn tells the platform layer to do.
#[derive(Debug)]
pub enum NextStep {
    /// A launch was handled: spawn the background registration thread for
    /// this pid, then take another turn.
    Spawn(i32),
    /// A lifecycle event was handled; take another turn.
    Continue,
    /// Hand this to the caller: `next_request` is done.
    Event(WindowEvent),
    /// Nothing is pending: run the native run loop until some source fires,
    /// then take another turn.
    Block,
}

/// One turn of the consumption loop. Lifecycle events are always drained
/// before window events, so a watcher's first event can never be seen before
/// its launch was handled; with nothing pending the only move is to block in
/// the native run loop.
pub open spec fn spec_step(m: CoordModel) -> (CoordModel, NextStep) {
    if m.lifecycle.len() > 0 {
        let e = m.lifecycle[0];
        let step = if e.kind is Launched {
            NextStep::Spawn(e.pid)
        } else {
            NextStep::Continue
        };
        (
            CoordModel {
                lifecycle: m.lifecycle.drop_first(),
                events: m.events,
                states: spec_apply_lifecycle(m.states, e),
            },
            step,
        )
    } else if m.events.len() > 0 {
        (
            CoordModel { lifecycle: m.lifecycle, events: m.events.drop_first(), states: m.states },
            NextStep::Event(m.events[0]),
        )
    } else {
        (m, NextStep::Block)
    }
}

/// A handle that watches every window event in the system.
///
/// The coordinator must be driven from the thread it was created on: the
/// native run loop it relies on is thread-confined. The platform layer
/// checks that at the top of `next_request` and fails fast on a violation.
#[derive(Debug)]
pub struct Watcher {
    context: Context,
    events: Vec<WindowEvent>,
    watchers: HashMap<i32, WatcherState>,
}

impl Watcher {
    /// The coordinator's observable state.
    pub closed spec fn model(&self) -> CoordModel {
        CoordModel { lifecycle: self.context.pending(), events: self.events@, states: self.watchers@ }
    }

    /// Start watching: every process already running and qualifying is fed
    /// in as a synthetic launch event, so "already running" and "just
    /// launched" are handled by one path. The process-list observer is the
    /// platform layer's to install first, so no launch is missed in between.
    pub fn new(running: &Vec<ProcessInfo>) -> (w: Watcher)
        ensures
            w.model() == (CoordModel {
                lifecycle: spec_launched_events(running@),
                events: Seq::<WindowEvent>::empty(),
                states: Map::<i32, WatcherState>::empty(),
            }),
    {
        let mut context = Context::new();
        context.post_launched(running);
        let w = Watcher { context, events: Vec::new(), watchers: HashMap::new() };
        proof {
            assert(w.model() =~= CoordModel {
                lifecycle: spec_launched_events(running@),
                events: Seq::<WindowEvent>::empty(),
                states: Map::<i32, WatcherState>::empty(),
            });
        }
        w
    }

    /// Post a lifecycle event, as a registration thread or the process-list
    /// observer does.
    pub fn push_process_event(&mut self, e: AppEvent)
        ensures
            final(self).model() == (CoordModel {
                lifecycle: old(self).model().lifecycle.push(e),
                ..old(self).model()
            }),
    {
        self.context.push(e);
        proof {
            assert(self.model() =~= CoordModel {
                lifecycle: old(self).model().lifecycle.push(e),
                ..old(self).model()
            });
        }
    }

    /// Post a normalized window event, as a native callback does.
    ///
    /// Only normalized events enter this queue. A per-process registration
    /// failure is terminal for that process alone: the platform layer drops
    /// it (at most logging it), so it never surfaces to the caller of
    /// `next_request`.
    pub fn push_event(&mut self, e: WindowEvent)
        ensures
            final(self).model() == (CoordModel {
                events: old(self).model().events.push(e),
                ..old(self).model()
            }),
    {
        self.events.push(e);
        proof {
            assert(self.model() =~= CoordModel {
                events: old(self).model().events.push(e),
                ..old(self).model()
            });
        }
    }

    /// Digest one change of the live-process list; see
    /// [`Context::process_change`].
    pub fn observe_process_change(
        &mut self,
        new_apps: &Vec<ProcessInfo>,
        old_apps: &Vec<ProcessInfo>,
    ) -> (sent: bool)
        ensures
            final(self).model() == (CoordModel {
                lifecycle: old(self).model().lifecycle + spec_launched_events(new_apps@)
                    + spec_terminated_events(old_apps@),
                ..old(self).model()
            }),
            sent == (spec_launched_events(new_apps@).len() + spec_terminated_events(
                old_apps@,
            ).len() > 0),
    {
        let sent = self.context.process_change(new_apps, old_apps);
        proof {
            assert(self.model() =~= CoordModel {
                lifecycle: old(self).model().lifecycle + spec_launched_events(new_apps@)
                    + spec_terminated_events(old_apps@),
                ..old(self).model()
            });
        }
        sent
    }

    /// Whether any state — a registration in flight or a live watcher — is
    /// held for this pid. A pid that is not watched holds no resources.
    pub fn is_watching(&self, pid: i32) -> (r: bool)
        ensures
            r == self.model().states.contains_key(pid),
    {
        self.watchers.contains_key(&pid)
    }

    /// Handle one lifecycle event: update the per-pid states and say whether
    /// a background registration thread must be spawned.
    pub fn handle_app_event(&mut self, event: AppEvent) -> (spawn: Option<i32>)
        ensures
            final(self).model() == (CoordModel {
                states: spec_apply_lifecycle(old(self).model().states, event),
                ..old(self).model()
            }),
            event.kind is Launched ==> spawn == Some(event.pid),
            !(event.kind is Launched) ==> spawn is None,
    {
        let AppEvent { kind, pid } = event;
        let spawn: Option<i32> = match kind {
            AppEventKind::Launched => {
                self.watchers.insert(pid, WatcherState::Registering(pid));
                Some(pid)
            },
            AppEventKind::Terminated => {
                self.watchers.remove(&pid);
                None
            },
            AppEventKind::Registered(w) => {
                // The pid may have terminated while registration was in
                // flight; a watcher for an untracked pid is discarded.
                if self.watchers.contains_key(&pid) {
                    self.watchers.insert(pid, WatcherState::Registered(w));
                }
                None
            },
        };
        proof {
            assert(self.model() =~= CoordModel {
                states: spec_apply_lifecycle(old(self).model().states, event),
                ..old(self).model()
            });
        }
        spawn
    }

    /// One turn of the blocking consumption loop; see [`spec_step`].
    pub fn next_request_step(&mut self) -> (step: NextStep)
        ensures
            final(self).model() == spec_step(old(self).model()).0,
            step == spec_step(old(self).model()).1,
    {
        match self.context.take_next() {
            Some(e) => {
                let spawn = self.handle_app_event(e);
                proof {
                    assert(self.model() =~= spec_step(old(self).model()).0);
                }
                match spawn {
                    Some(pid) => NextStep::Spawn(pid),
                    None => NextStep::Continue,
                }
            },
            None => {
                if self.events.len() > 0 {
                    let e = self.events.remove(0);
                    proof {
                        assert(old(self).model().events.remove(0) =~= old(
                            self,
                        ).model().events.drop_first());
                        assert(self.model() =~= spec_step(old(self).model()).0);
                    }
                    NextStep::Event(e)
                } else {
                    proof {
                        assert(self.model() =~= spec_step(old(self).model()).0);
                    }
                    NextStep::Block
                }
            },
        }
    }
}

/// A termination observed before a late registration wins: once a
/// `Terminated` event for a pid has been handled, handling a `Registered`
/// event for the same pid afterwards leaves the pid untracked — the stale
/// watcher is discarded, never stored.
pub proof fn lemma_terminated_discards_late_registration(
    states: Map<i32, WatcherState>,
    pid: i32,
    w: watch::Watcher,
)
    ensures
        !spec_apply_lifecycle(
            spec_apply_lifecycle(states, AppEvent { kind: AppEventKind::Terminated, pid }),
            AppEvent { kind: AppEventKind::Registered(w), pid },
        ).contains_key(pid),
{
}

/// A coordinator with nothing pending.
pub open spec fn spec_idle(m: CoordModel) -> bool {
    m.lifecycle.len() == 0 && m.events.len() == 0
}

/// The state after `n` consumption turns.
pub open spec fn spec_steps(m: CoordModel, n: nat) -> CoordModel
    decreases n,
{
    if n == 0 {
        m
    } else {
        spec_steps(spec_step(m).0, (n - 1) as nat)
    }
}

/// The consumption loop never busy-spins: from an idle coordinator, every
/// one of `n` consecutive turns leaves the state untouched and answers
/// `Block` — each turn is one blocking wait in the native run loop, never a
/// poll.
pub proof fn lemma_idle_turns_always_block(m: CoordModel, n: nat)
    requires
        spec_idle(m),
    ensures
        spec_steps(m, n) == m,
        spec_step(spec_steps(m, n)).1 == NextStep::Block,
    decreases n,
{
    if n > 0 {
        lemma_idle_turns_always_block(m, (n - 1) as nat);
        assert(spec_steps(m, n) == spec_steps(spec_step(m).0, (n - 1) as nat));
    }
}

} // verus!
