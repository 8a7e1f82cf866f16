//! The process list: which processes qualify for watching, and one-shot
//! enumeration of every window they own.
//!
//! The operating system's process list and each process's window list are
//! snapshots the platform layer takes; which processes count and which
//! windows the caller sees are decided here.

use vstd::prelude::*;

use crate::window::Window;

verus! {

/// The operating system's classification of a process.
#[derive(Clone, Copy, Debug, PartialEq, Eq, Structural)]
pub enum ActivationPolicy {
    /// An ordinary application with a user interface.
    Regular,
    /// A helper that may show UI but owns no ordinary windows.
    Accessory,
    /// A background process.
    Prohibited,
}

/// One entry of the live-process list.
#[derive(Clone, Copy, Debug, PartialEq, Eq, Structural)]
pub struct ProcessInfo {
    /// The process id, or -1 for an application not associated with a
    /// process.
    pub pid: i32,
    /// The process's activation policy.
    pub policy: ActivationPolicy,
}

/// Whether a process is watched: it must be a regular application and be
/// backed by an actual process.
pub open spec fn spec_app_qualifies(p: ProcessInfo) -> bool {
    p.policy is Regular && p.pid != -1
}

/// Whether a process is watched; see [`spec_app_qualifies`].
pub fn app_qualifies(p: &ProcessInfo) -> (r: bool)
    ensures
        r == spec_app_qualifies(*p),
{
    match p.policy {
        ActivationPolicy::Regular => p.pid != -1,
        _ => false,
    }
}

/// Keep exactly the processes that qualify for watching, in order.
pub fn filter_apps(apps: &Vec<ProcessInfo>) -> (r: Vec<ProcessInfo>)
    ensures
        r@ == apps@.filter(|p: ProcessInfo| spec_app_qualifies(p)),
{
    let mut r: Vec<ProcessInfo> = Vec::new();
    let mut i: usize = 0;
    while i < apps.len()
        invariant
            i <= apps@.len(),
            r@ == apps@.take(i as int).filter(|p: ProcessInfo| spec_app_qualifies(p)),
        decreases apps@.len() - i,
    {
        if app_qualifies(&apps[i]) {
            r.push(apps[i]);
        }
        proof {
            reveal(Seq::filter);
            assert(apps@.take(i + 1 as int).drop_last() =~= apps@.take(i as int));
            assert(apps@.take(i + 1 as int).last() == apps@[i as int]);
        }
        i = i + 1;
    }
    proof {
        assert(apps@.take(apps@.len() as int) =~= apps@);
    }
    r
}

/// One process's direct window enumeration: the process-list entry and the
/// windows its window-list attribute reported, in enumeration order.
#[derive(Debug)]
pub struct AppWindows {
    /// The process the windows belong to.
    pub app: ProcessInfo,
    /// Its windows, as the native window-list attribute reported them.
    pub windows: Vec<Window>,
}

/// Every window of every qualifying process, app by app in process-list
/// order, windows in enumeration order.
pub open spec fn spec_windows_of(t: Seq<AppWindows>) -> Seq<Window>
    decreases t.len(),
{
    if t.len() == 0 {
        Seq::empty()
    } else {
        spec_windows_of(t.drop_last()) + (if spec_app_qualifies(t.last().app) {
            t.last().windows@
        } else {
            Seq::empty()
        })
    }
}

/// Enumerate every window of every qualifying process.
///
/// One bad window or process does not abort enumeration of the rest: the
/// platform layer records per-item failures in its own snapshot and they
/// surface per item, not here.
pub fn iter_windows(table: &Vec<AppWindows>) -> (r: Vec<Window>)
    ensures
        r@ == spec_windows_of(table@),
{
    let mut r: Vec<Window> = Vec::new();
    let mut i: usize = 0;
    while i < table.len()
        invariant
            i <= table@.len(),
            r@ == spec_windows_of(table@.take(i as int)),
        decreases table@.len() - i,
    {
        if app_qualifies(&table[i].app) {
            let ghost before = r@;
            let entry = &table[i];
            let mut j: usize = 0;
            while j < entry.windows.len()
                invariant
                    j <= entry.windows@.len(),
                    r@ == before + entry.windows@.take(j as int),
                decreases entry.windows@.len() - j,
            {
                r.push(entry.windows[j]);
                proof {
                    assert(entry.windows@.take(j + 1 as int) =~= entry.windows@.take(
                        j as int,
                    ).push(entry.windows@[j as int]));
                }
                j = j + 1;
            }
            proof {
                assert(entry.windows@.take(entry.windows@.len() as int) =~= entry.windows@);
            }
        }
        proof {
            assert(table@.take(i + 1 as int).drop_last() =~= table@.take(i as int));
            assert(table@.take(i + 1 as int).last() == table@[i as int]);
            assert(r@ =~= spec_windows_of(table@.take(i + 1 as int)));
        }
        i = i + 1;
    }
    proof {
        assert(table@.take(table@.len() as int) =~= table@);
    }
    r
}

/// Completeness: every window that direct enumeration of a qualifying
/// process reaches is included.
pub proof fn lemma_iter_windows_complete(t: Seq<AppWindows>, i: int, j: int)
    requires
        0 <= i < t.len(),
        spec_app_qualifies(t[i].app),
        0 <= j < t[i].windows@.len(),
    ensures
        spec_windows_of(t).contains(t[i].windows@[j]),
    decreases t.len(),
{
    if i == t.len() - 1 {
        let prefix = spec_windows_of(t.drop_last());
        assert(spec_windows_of(t)[prefix.len() + j] == t[i].windows@[j]);
    } else {
        lemma_iter_windows_complete(t.drop_last(), i, j);
        let idx = choose|k: int|
            0 <= k < spec_windows_of(t.drop_last()).len() && spec_windows_of(t.drop_last())[k] == t[i].windows@[j];
        assert(spec_windows_of(t)[idx] == t[i].windows@[j]);
    }
}

/// No cross-process leakage: every window included comes from the direct
/// enumeration of some qualifying process.
pub proof fn lemma_iter_windows_no_leakage(t: Seq<AppWindows>, w: Window)
    requires
        spec_windows_of(t).contains(w),
    ensures
        exists|i: int, j: int|
            0 <= i < t.len() && spec_app_qualifies(t[i].app) && 0 <= j < t[i].windows@.len()
                && #[trigger] t[i].windows@[j] == w,
    decreases t.len(),
{
    let prefix = spec_windows_of(t.drop_last());
    let k = choose|k: int| 0 <= k < spec_windows_of(t).len() && spec_windows_of(t)[k] == w;
    if k < prefix.len() {
        assert(prefix[k] == w);
        lemma_iter_windows_no_leakage(t.drop_last(), w);
        let (i, j) = choose|i: int, j: int|
            0 <= i < t.drop_last().len() && spec_app_qualifies(t.drop_last()[i].app) && 0 <= j
                < t.drop_last()[i].windows@.len() && #[trigger] t.drop_last()[i].windows@[j] == w;
        assert(t[i].windows@[j] == w && spec_app_qualifies(t[i].app));
    } else {
        let i = t.len() - 1;
        let j = k - prefix.len();
        assert(t[i].windows@[j] == w && spec_app_qualifies(t[i].app));
    }
}

/// No duplicates: if window identities are distinct within each process's
/// enumeration and across processes, every window appears exactly once.
pub proof fn lemma_iter_windows_no_duplicates(t: Seq<AppWindows>)
    requires
        forall|i: int, j1: int, j2: int|
            0 <= i < t.len() && 0 <= j1 < j2 < t[i].windows@.len() ==> (
            #[trigger] t[i].windows@[j1]).handle != (#[trigger] t[i].windows@[j2]).handle,
        forall|i1: int, i2: int, j1: int, j2: int|
            0 <= i1 < i2 < t.len() && 0 <= j1 < t[i1].windows@.len() && 0 <= j2
                < t[i2].windows@.len() ==> (#[trigger] t[i1].windows@[j1]).handle != (
            #[trigger] t[i2].windows@[j2]).handle,
    ensures
        forall|k1: int, k2: int|
            0 <= k1 < k2 < spec_windows_of(t).len() ==> (#[trigger] spec_windows_of(t)[k1]).handle
                != (#[trigger] spec_windows_of(t)[k2]).handle,
    decreases t.len(),
{
    if t.len() == 0 {
    } else {
        let u = t.drop_last();
        let a = t.last();
        lemma_iter_windows_no_duplicates(u);
        let prefix = spec_windows_of(u);
        assert forall|k1: int, k2: int|
            0 <= k1 < k2 < spec_windows_of(t).len() implies (#[trigger] spec_windows_of(
            t,
        )[k1]).handle != (#[trigger] spec_windows_of(t)[k2]).handle by {
            if k2 < prefix.len() {
                assert(spec_windows_of(t)[k1] == prefix[k1]);
                assert(spec_windows_of(t)[k2] == prefix[k2]);
            } else if k1 >= prefix.len() {
                assert(spec_app_qualifies(a.app));
                assert(spec_windows_of(t)[k1] == a.windows@[k1 - prefix.len()]);
                assert(spec_windows_of(t)[k2] == a.windows@[k2 - prefix.len()]);
                assert(t[t.len() - 1] == a);
            } else {
                assert(spec_windows_of(t)[k1] == prefix[k1]);
                assert(prefix.contains(prefix[k1]));
                lemma_iter_windows_no_leakage(u, prefix[k1]);
                let (i, j) = choose|i: int, j: int|
                    0 <= i < u.len() && spec_app_qualifies(u[i].app) && 0 <= j
                        < u[i].windows@.len() && #[trigger] u[i].windows@[j] == prefix[k1];
                assert(t[i].windows@[j] == prefix[k1]);
                assert(spec_windows_of(t)[k2] == a.windows@[k2 - prefix.len()]);
                assert(t[t.len() - 1] == a);
                assert(t[i].windows@[j].handle != t[t.len() - 1].windows@[k2 - prefix.len()].handle);
            }
        }
    }
}

/// A probe of one window's focus state, in enumeration order of the focused
/// application's windows.
#[derive(Clone, Copy, Debug)]
pub struct FocusProbe {
    /// The window probed.
    pub window: Window,
    /// Whether the window reported itself focused.
    pub focused: bool,
}

/// The first window that reports itself focused, if any.
pub open spec fn spec_first_focused(probes: Seq<FocusProbe>) -> Option<Window>
    decreases probes.len(),
{
    if probes.len() == 0 {
        None
    } else if probes[0].focused {
        Some(probes[0].window)
    } else {
        spec_first_focused(probes.drop_first())
    }
}

/// The globally focused window: the first window of the frontmost
/// application that reports itself focused.
///
/// The frontmost application can have focus yet no focused window (it may
/// own no windows at all); the answer is then `None`.
pub fn focused_window(probes: &Vec<FocusProbe>) -> (r: Option<Window>)
    ensures
        r == spec_first_focused(probes@),
{
    let mut i: usize = 0;
    while i < probes.len()
        invariant
            i <= probes@.len(),
            forall|j: int| 0 <= j < i ==> !(#[trigger] probes@[j]).focused,
        decreases probes@.len() - i,
    {
        if probes[i].focused {
            proof {
                lemma_first_focused_at(probes@, i as int);
            }
            return Some(probes[i].window);
        }
        i = i + 1;
    }
    proof {
        lemma_first_focused_none(probes@);
    }
    None
}

proof fn lemma_first_focused_at(probes: Seq<FocusProbe>, i: int)
    requires
        0 <= i < probes.len(),
        forall|j: int| 0 <= j < i ==> !(#[trigger] probes[j]).focused,
        probes[i].focused,
    ensures
        spec_first_focused(probes) == Some(probes[i].window),
    decreases i,
{
    if i > 0 {
        lemma_first_focused_at(probes.drop_first(), i - 1);
    }
}

proof fn lemma_first_focused_none(probes: Seq<FocusProbe>)
    requires
        forall|j: int| 0 <= j < probes.len() ==> !(#[trigger] probes[j]).focused,
    ensures
        spec_first_focused(probes) is None,
    decreases probes.len(),
{
    if probes.len() > 0 {
        lemma_first_focused_none(probes.drop_first());
    }
}

} // verus!
