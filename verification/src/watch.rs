//! Per-process watcher: the fixed registration set, the context allocated for
//! each registration, and the release of those contexts.
//!
//! Construction registers a `Destroyed` notification individually on every
//! window currently known (the destroy callback otherwise could not say which
//! window vanished), then each of the ten process-level notifications once on
//! the application object. Each registration owns one context describing what
//! to synthesise; the platform layer hands the native callback that context.

use vstd::prelude::*;

use crate::application::Application;
use crate::error::{
    spec_from_ax_error, WindowError, AX_ERROR_NOTIFICATION_UNSUPPORTED, AX_ERROR_SUCCESS,
};
use crate::handle::{AppHandle, WindowHandle};
use crate::notify::Notification;

verus! {

/// The number of process-level notifications every watcher registers.
pub const APP_NOTIFICATION_COUNT: usize = 10;

/// The context allocated for one registration, kept alive for the life of the
/// registration and handed to the native callback on every delivery.
#[derive(Clone, Copy, Debug, PartialEq, Eq, Structural)]
pub struct CallbackInfo {
    /// Which event this registration synthesises, and the handle it captured.
    pub notification: Notification,
}

/// The contexts for the `Destroyed` registrations, one per known window, in
/// enumeration order, each capturing that window's identity.
pub open spec fn spec_destroyed_contexts(windows: Seq<WindowHandle>) -> Seq<CallbackInfo> {
    windows.map_values(|w: WindowHandle| CallbackInfo { notification: Notification::Destroyed(w) })
}

/// The contexts for the ten process-level registrations, in the order they
/// are registered.
pub open spec fn spec_app_contexts(app: AppHandle) -> Seq<CallbackInfo> {
    seq![
        CallbackInfo { notification: Notification::Created(app) },
        CallbackInfo { notification: Notification::Focused(app) },
        CallbackInfo { notification: Notification::Activated(app) },
        CallbackInfo { notification: Notification::Moved(app) },
        CallbackInfo { notification: Notification::Resized(app) },
        CallbackInfo { notification: Notification::Renamed(app) },
        CallbackInfo { notification: Notification::Shown(app) },
        CallbackInfo { notification: Notification::Hidden(app) },
        CallbackInfo { notification: Notification::Miniaturized(app) },
        CallbackInfo { notification: Notification::Deminiaturized(app) },
    ]
}

/// Everything a watcher for this application registers: one `Destroyed`
/// context per known window, then the ten process-level contexts.
pub open spec fn spec_registration_plan(app: AppHandle, windows: Seq<WindowHandle>) -> Seq<
    CallbackInfo,
> {
    spec_destroyed_contexts(windows) + spec_app_contexts(app)
}

/// Build the registration plan for an application: the full, ordered list of
/// contexts the platform layer must register natively.
pub fn registration_plan(app: &Application, windows: &Vec<WindowHandle>) -> (plan: Vec<
    CallbackInfo,
>)
    ensures
        plan@ == spec_registration_plan(app.handle, windows@),
        plan@.len() == windows@.len() + APP_NOTIFICATION_COUNT,
{
    let mut plan: Vec<CallbackInfo> = Vec::new();
    let mut i: usize = 0;
    while i < windows.len()
        invariant
            i <= windows@.len(),
            plan@ =~= spec_destroyed_contexts(windows@.take(i as int)),
        decreases windows@.len() - i,
    {
        plan.push(CallbackInfo { notification: Notification::Destroyed(windows[i]) });
        proof {
            assert(windows@.take(i + 1 as int) =~= windows@.take(i as int).push(windows@[i as int]));
        }
        i = i + 1;
    }
    proof {
        assert(windows@.take(windows@.len() as int) =~= windows@);
    }
    plan.push(CallbackInfo { notification: Notification::Created(app.handle) });
    plan.push(CallbackInfo { notification: Notification::Focused(app.handle) });
    plan.push(CallbackInfo { notification: Notification::Activated(app.handle) });
    plan.push(CallbackInfo { notification: Notification::Moved(app.handle) });
    plan.push(CallbackInfo { notification: Notification::Resized(app.handle) });
    plan.push(CallbackInfo { notification: Notification::Renamed(app.handle) });
    plan.push(CallbackInfo { notification: Notification::Shown(app.handle) });
    plan.push(CallbackInfo { notification: Notification::Hidden(app.handle) });
    plan.push(CallbackInfo { notification: Notification::Miniaturized(app.handle) });
    plan.push(CallbackInfo { notification: Notification::Deminiaturized(app.handle) });
    proof {
        assert(plan@ =~= spec_registration_plan(app.handle, windows@));
    }
    plan
}

/// Whether a native result code lets registration go on: success, or the
/// distinguished "this process does not support that notification" code,
/// which is swallowed per-notification rather than failing the whole watcher.
pub open spec fn spec_registration_accepted(code: i32) -> bool {
    code == AX_ERROR_SUCCESS || code == AX_ERROR_NOTIFICATION_UNSUPPORTED
}

/// Judge the native result of adding one notification.
///
/// Unsupported notifications are expected for some processes and swallowed;
/// every other failure is mapped and propagated.
pub fn add_notification(code: i32) -> (r: Result<(), WindowError>)
    ensures
        spec_registration_accepted(code) ==> r is Ok,
        !spec_registration_accepted(code) ==> r == Result::<(), WindowError>::Err(
            spec_from_ax_error(code),
        ),
{
    if code == AX_ERROR_SUCCESS || code == AX_ERROR_NOTIFICATION_UNSUPPORTED {
        Ok(())
    } else {
        Err(WindowError::from_ax_error(code))
    }
}

/// The first registration result that is neither success nor "unsupported",
/// if any.
pub open spec fn spec_first_rejected(codes: Seq<i32>) -> Option<i32>
    decreases codes.len(),
{
    if codes.len() == 0 {
        None
    } else if !spec_registration_accepted(codes[0]) {
        Some(codes[0])
    } else {
        spec_first_rejected(codes.drop_first())
    }
}

/// A watcher for one process: the registered contexts it owns.
///
/// The native observer object itself is the platform layer's to hold; the
/// watcher owns the contexts, and owns them exclusively, so they can be
/// released exactly once, by [`Watcher::dispose`].
#[derive(Debug)]
pub struct Watcher {
    /// The process the watcher is registered against.
    pub pid: i32,
    resources: Vec<CallbackInfo>,
}

impl Watcher {
    /// The contexts this watcher holds alive.
    pub closed spec fn resources(&self) -> Seq<CallbackInfo> {
        self.resources@
    }

    /// The process the watcher is registered against.
    pub closed spec fn watched_pid(&self) -> i32 {
        self.pid
    }

    /// Judge a finished registration pass and take ownership of its contexts.
    ///
    /// The platform layer registers the whole plan natively and hands back
    /// one result code per entry, in plan order. If every code is accepted
    /// the watcher owns the plan's contexts; otherwise the first rejected
    /// code's error is returned and no context stays alive.
    pub fn new(app: &Application, windows: &Vec<WindowHandle>, codes: &Vec<i32>) -> (r: Result<
        Watcher,
        WindowError,
    >)
        requires
            codes@.len() == windows@.len() + APP_NOTIFICATION_COUNT,
        ensures
            spec_first_rejected(codes@) is None ==> (r matches Ok(w) && w.resources()
                == spec_registration_plan(app.handle, windows@) && w.watched_pid() == app.pid),
            spec_first_rejected(codes@) matches Some(code) ==> r == Result::<
                Watcher,
                WindowError,
            >::Err(spec_from_ax_error(code)),
    {
        let mut i: usize = 0;
        while i < codes.len()
            invariant
                i <= codes@.len(),
                spec_first_rejected(codes@.take(i as int)) is None,
                forall|j: int| 0 <= j < i ==> spec_registration_accepted(#[trigger] codes@[j]),
            decreases codes@.len() - i,
        {
            let code = codes[i];
            if !(code == AX_ERROR_SUCCESS || code == AX_ERROR_NOTIFICATION_UNSUPPORTED) {
                proof {
                    lemma_first_rejected_at(codes@, i as int);
                }
                return Err(WindowError::from_ax_error(code));
            }
            proof {
                assert(codes@.take(i + 1 as int) =~= codes@.take(i as int).push(codes@[i as int]));
                lemma_first_rejected_push(codes@.take(i as int), codes@[i as int]);
            }
            i = i + 1;
        }
        proof {
            assert(codes@.take(codes@.len() as int) =~= codes@);
        }
        Ok(Watcher { pid: app.pid, resources: registration_plan(app, windows) })
    }

    /// Release every context the watcher holds, handing each back exactly
    /// once.
    ///
    /// Taking the watcher by value is what makes "exactly once" a theorem:
    /// the watcher is gone afterwards, so no second release can happen, and
    /// the contract says the release was complete.
    pub fn dispose(self) -> (freed: Vec<CallbackInfo>)
        ensures
            freed@ == self.resources(),
    {
        self.resources
    }
}

/// If every element of a sequence of codes is accepted, appending one more
/// leaves the first rejection equal to that element's own judgement.
proof fn lemma_first_rejected_push(codes: Seq<i32>, code: i32)
    requires
        spec_first_rejected(codes) is None,
    ensures
        spec_registration_accepted(code) ==> spec_first_rejected(codes.push(code)) is None,
        !spec_registration_accepted(code) ==> spec_first_rejected(codes.push(code)) == Some(code),
    decreases codes.len(),
{
    if codes.len() == 0 {
        assert(codes.push(code)[0] == code);
        assert(codes.push(code).drop_first() =~= Seq::<i32>::empty());
        assert(spec_first_rejected(Seq::<i32>::empty()) is None);
    } else {
        assert(codes.push(code)[0] == codes[0]);
        assert(spec_registration_accepted(codes[0]));
        assert(codes.push(code).drop_first() =~= codes.drop_first().push(code));
        lemma_first_rejected_push(codes.drop_first(), code);
    }
}

/// If the first `i` codes are accepted and the `i`-th is not, the `i`-th is
/// the first rejection.
proof fn lemma_first_rejected_at(codes: Seq<i32>, i: int)
    requires
        0 <= i < codes.len(),
        forall|j: int| 0 <= j < i ==> spec_registration_accepted(#[trigger] codes[j]),
        !spec_registration_accepted(codes[i]),
    ensures
        spec_first_rejected(codes) == Some(codes[i]),
    decreases i,
{
    if i == 0 {
    } else {
        lemma_first_rejected_at(codes.drop_first(), i - 1);
    }
}

/// Distinct windows get distinct contexts, and no window's context collides
/// with a process-level one: a watcher built over distinct windows allocates
/// each context exactly once, so the release of [`Watcher::dispose`] hands
/// every context back exactly once.
pub proof fn lemma_registration_contexts_unique(app: AppHandle, windows: Seq<WindowHandle>)
    requires
        forall|i: int, j: int|
            0 <= i < j < windows.len() ==> #[trigger] windows[i] != #[trigger] windows[j],
    ensures
        forall|i: int, j: int|
            0 <= i < j < spec_registration_plan(app, windows).len()
                ==> #[trigger] spec_registration_plan(app, windows)[i]
                != #[trigger] spec_registration_plan(app, windows)[j],
{
    let plan = spec_registration_plan(app, windows);
    let n = windows.len() as int;
    assert forall|i: int, j: int| 0 <= i < j < plan.len() implies #[trigger] plan[i]
        != #[trigger] plan[j] by {
        if j < n {
            assert(plan[i] == spec_destroyed_contexts(windows)[i]);
            assert(plan[j] == spec_destroyed_contexts(windows)[j]);
            assert(windows[i] != windows[j]);
        } else if i < n {
            assert(plan[i] == spec_destroyed_contexts(windows)[i]);
            assert(plan[i].notification is Destroyed);
            assert(plan[j] == spec_app_contexts(app)[j - n]);
            assert(!(plan[j].notification is Destroyed));
        } else {
            assert(plan[i] == spec_app_contexts(app)[i - n]);
            assert(plan[j] == spec_app_contexts(app)[j - n]);
        }
    }
}

} // verus!
