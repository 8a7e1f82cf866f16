//! Normalisation of native notifications into the uniform event stream.
//!
//! One registration context describes which event to synthesise and how to
//! resolve its payload. The native callback runs on the platform layer's
//! thread; it performs whatever query the strategy needs (none, the focused
//! window, or the full window list) and hands the plain results to the
//! functions here, which decide exactly which events to emit.

use vstd::prelude::*;

use crate::handle::{AppHandle, WindowHandle};
use crate::event::WindowEvent;
use crate::window::Window;

verus! {

/// A registered notification: which event to synthesise, and which handle the
/// registration captured.
///
/// Every variant but `Destroyed` captures the application object the
/// registration was made against. `Destroyed` is registered per window and
/// captures that window's identity, because the native destroy callback
/// carries no payload that could still be queried.
#[derive(Clone, Copy, Debug, PartialEq, Eq, Structural)]
pub enum Notification {
    /// A window was created in the application.
    Created(AppHandle),
    /// The captured window was destroyed.
    Destroyed(WindowHandle),
    /// Focus moved between the application's own windows.
    Focused(AppHandle),
    /// The application itself became active.
    Activated(AppHandle),
    /// A window of the application moved.
    Moved(AppHandle),
    /// A window of the application was resized.
    Resized(AppHandle),
    /// A window of the application changed its title.
    Renamed(AppHandle),
    /// The application was shown; every window of it reappears.
    Shown(AppHandle),
    /// The application was hidden; every window of it vanishes from view.
    Hidden(AppHandle),
    /// A window of the application was minimized.
    Miniaturized(AppHandle),
    /// A window of the application was restored from being minimized.
    Deminiaturized(AppHandle),
}

/// Whether the native callback for this notification passes the affected
/// window itself as its element.
pub open spec fn carries_window(n: Notification) -> bool {
    ||| n is Created
    ||| n is Focused
    ||| n is Moved
    ||| n is Resized
    ||| n is Renamed
    ||| n is Miniaturized
    ||| n is Deminiaturized
}

/// The application object a notification was registered against.
pub open spec fn spec_app_of(n: Notification) -> AppHandle
    recommends
        !(n is Destroyed),
{
    match n {
        Notification::Created(a) => a,
        Notification::Destroyed(_) => arbitrary(),
        Notification::Focused(a) => a,
        Notification::Activated(a) => a,
        Notification::Moved(a) => a,
        Notification::Resized(a) => a,
        Notification::Renamed(a) => a,
        Notification::Shown(a) => a,
        Notification::Hidden(a) => a,
        Notification::Miniaturized(a) => a,
        Notification::Deminiaturized(a) => a,
    }
}

/// The event a notification synthesises for a resolved window.
pub open spec fn spec_info(n: Notification, window: Option<Window>) -> WindowEvent
    recommends
        !(n is Destroyed) ==> window is Some,
{
    match n {
        Notification::Created(_) => WindowEvent::Opened(window->Some_0),
        Notification::Destroyed(h) => WindowEvent::Closed(h),
        Notification::Focused(_) => WindowEvent::Focused(window->Some_0),
        Notification::Activated(_) => WindowEvent::Focused(window->Some_0),
        Notification::Moved(_) => WindowEvent::Moved(window->Some_0),
        Notification::Resized(_) => WindowEvent::Resized(window->Some_0),
        Notification::Renamed(_) => WindowEvent::Renamed(window->Some_0),
        Notification::Shown(_) => WindowEvent::Shown(window->Some_0),
        Notification::Hidden(_) => WindowEvent::Hidden(window->Some_0),
        Notification::Miniaturized(_) => WindowEvent::Minimized(window->Some_0),
        Notification::Deminiaturized(_) => WindowEvent::Unminimized(window->Some_0),
    }
}

impl Notification {
    /// The event this notification stands for, given the window the callback
    /// resolved. `Destroyed` needs no window: it reports the captured
    /// identity.
    pub fn info(&self, window: Option<Window>) -> (r: WindowEvent)
        requires
            !(*self is Destroyed) ==> window is Some,
        ensures
            r == spec_info(*self, window),
    {
        match self {
            Notification::Created(_) => WindowEvent::Opened(window.unwrap()),
            Notification::Destroyed(h) => WindowEvent::Closed(*h),
            Notification::Focused(_) => WindowEvent::Focused(window.unwrap()),
            Notification::Activated(_) => WindowEvent::Focused(window.unwrap()),
            Notification::Moved(_) => WindowEvent::Moved(window.unwrap()),
            Notification::Resized(_) => WindowEvent::Resized(window.unwrap()),
            Notification::Renamed(_) => WindowEvent::Renamed(window.unwrap()),
            Notification::Shown(_) => WindowEvent::Shown(window.unwrap()),
            Notification::Hidden(_) => WindowEvent::Hidden(window.unwrap()),
            Notification::Miniaturized(_) => WindowEvent::Minimized(window.unwrap()),
            Notification::Deminiaturized(_) => WindowEvent::Unminimized(window.unwrap()),
        }
    }

    /// The native name this notification is registered under.
    pub fn name(&self) -> (r: &'static str)
        ensures
            r@ == spec_name(*self),
    {
        match self {
            Notification::Created(_) => "AXWindowCreated",
            Notification::Destroyed(_) => "AXUIElementDestroyed",
            Notification::Focused(_) => "AXFocusedWindowChanged",
            Notification::Activated(_) => "AXApplicationActivated",
            Notification::Moved(_) => "AXMoved",
            Notification::Resized(_) => "AXResized",
            Notification::Renamed(_) => "AXTitleChanged",
            Notification::Shown(_) => "AXApplicationShown",
            Notification::Hidden(_) => "AXApplicationHidden",
            Notification::Miniaturized(_) => "AXWindowMiniaturized",
            Notification::Deminiaturized(_) => "AXWindowDeminiaturized",
        }
    }
}

/// The native name of each notification.
pub open spec fn spec_name(n: Notification) -> Seq<char> {
    match n {
        Notification::Created(_) => "AXWindowCreated"@,
        Notification::Destroyed(_) => "AXUIElementDestroyed"@,
        Notification::Focused(_) => "AXFocusedWindowChanged"@,
        Notification::Activated(_) => "AXApplicationActivated"@,
        Notification::Moved(_) => "AXMoved"@,
        Notification::Resized(_) => "AXResized"@,
        Notification::Renamed(_) => "AXTitleChanged"@,
        Notification::Shown(_) => "AXApplicationShown"@,
        Notification::Hidden(_) => "AXApplicationHidden"@,
        Notification::Miniaturized(_) => "AXWindowMiniaturized"@,
        Notification::Deminiaturized(_) => "AXWindowDeminiaturized"@,
    }
}

/// The event emitted for a window-carrying notification.
///
/// The callback wraps the element it was passed together with the captured
/// application handle. `element` is `None` when that wrapping failed (the
/// handle came back invalid); the event is then dropped silently.
pub fn window_payload_event(n: &Notification, element: Option<WindowHandle>) -> (r: Option<
    WindowEvent,
>)
    requires
        carries_window(*n),
    ensures
        element matches Some(h) ==> r == Some(
            spec_info(*n, Some(Window { handle: h, app_handle: spec_app_of(*n) })),
        ),
        element is None ==> r is None,
{
    match element {
        Some(h) => {
            let app = match n {
                Notification::Created(a) => *a,
                Notification::Focused(a) => *a,
                Notification::Moved(a) => *a,
                Notification::Resized(a) => *a,
                Notification::Renamed(a) => *a,
                Notification::Miniaturized(a) => *a,
                Notification::Deminiaturized(a) => *a,
                _ => {
                    return None;
                },
            };
            match Window::new(h, app) {
                Ok(w) => Some(n.info(Some(w))),
                Err(_) => None,
            }
        },
        None => None,
    }
}

/// The event emitted when the application becomes active.
///
/// The callback re-queries the application's focused window; an application
/// that has focus but no windows resolves to `None`, and no event is emitted.
pub fn activated_event(n: &Notification, focused: Option<WindowHandle>) -> (r: Option<WindowEvent>)
    requires
        *n is Activated,
    ensures
        focused matches Some(h) ==> r == Some(
            WindowEvent::Focused(Window { handle: h, app_handle: spec_app_of(*n) }),
        ),
        focused is None ==> r is None,
{
    match focused {
        Some(h) => {
            let app = match n {
                Notification::Activated(a) => *a,
                _ => {
                    return None;
                },
            };
            Some(n.info(Some(Window { handle: h, app_handle: app })))
        },
        None => None,
    }
}

/// The events emitted when the application as a whole is shown or hidden.
///
/// These notifications identify no particular window, so the callback
/// re-enumerates the application's window list and one event is emitted per
/// window in it, in enumeration order.
pub fn app_visibility_events(n: &Notification, windows: &Vec<Window>) -> (r: Vec<WindowEvent>)
    requires
        *n is Shown || *n is Hidden,
    ensures
        r@.len() == windows@.len(),
        forall|i: int|
            0 <= i < windows@.len() ==> r@[i] == spec_info(*n, Some(#[trigger] windows@[i])),
{
    let mut events: Vec<WindowEvent> = Vec::new();
    let mut i: usize = 0;
    while i < windows.len()
        invariant
            *n is Shown || *n is Hidden,
            i <= windows@.len(),
            events@.len() == i,
            forall|j: int|
                0 <= j < i ==> events@[j] == spec_info(*n, Some(#[trigger] windows@[j])),
        decreases windows@.len() - i,
    {
        events.push(n.info(Some(windows[i])));
        i = i + 1;
    }
    events
}

/// The event emitted when the captured window is destroyed.
///
/// No query is possible any more: the event carries exactly the identity that
/// was captured when the registration was made.
pub fn destroyed_event(n: &Notification) -> (r: WindowEvent)
    requires
        *n is Destroyed,
    ensures
        r == WindowEvent::Closed(n->Destroyed_0),
{
    n.info(None)
}

/// A window's lifetime round trip preserves its identity: the event that
/// reports the window as opened and the event that later reports it as closed
/// carry the same window identity, even though at close time the window can
/// no longer be queried and only the captured handle is reported.
pub proof fn lemma_open_close_identity(w: Window)
    ensures
        spec_info(Notification::Created(w.app_handle), Some(w)) == WindowEvent::Opened(w),
        spec_info(Notification::Destroyed(w.handle), None) == WindowEvent::Closed(w.handle),
        spec_info(Notification::Created(w.app_handle), Some(w))->Opened_0.handle == spec_info(
            Notification::Destroyed(w.handle),
            None,
        )->Closed_0,
{
}

/// Hiding or showing an application with `n` windows yields exactly `n`
/// events, one per window, and every one of them references the same
/// application.
pub proof fn lemma_app_visibility_covers_each_window(n: Notification, windows: Seq<Window>, r: Seq<
    WindowEvent,
>)
    requires
        n is Shown || n is Hidden,
        r.len() == windows.len(),
        forall|i: int| 0 <= i < windows.len() ==> r[i] == spec_info(n, Some(#[trigger] windows[i])),
        forall|i: int| 0 <= i < windows.len() ==> (#[trigger] windows[i]).app_handle == spec_app_of(n),
    ensures
        forall|i: int|
            0 <= i < r.len() ==> (n is Hidden ==> #[trigger] r[i] == WindowEvent::Hidden(
                windows[i],
            )) && (n is Shown ==> r[i] == WindowEvent::Shown(windows[i])),
        forall|i: int|
            0 <= i < r.len() ==> (#[trigger] r[i] matches WindowEvent::Hidden(w) ==> w.app_handle
                == spec_app_of(n)) && (r[i] matches WindowEvent::Shown(w) ==> w.app_handle
                == spec_app_of(n)),
{
    assert forall|i: int|
        0 <= i < r.len() implies (#[trigger] r[i] matches WindowEvent::Hidden(w) ==> w.app_handle
        == spec_app_of(n)) && (r[i] matches WindowEvent::Shown(w) ==> w.app_handle == spec_app_of(
        n,
    )) by {
        assert(r[i] == spec_info(n, Some(windows[i])));
        assert(windows[i].app_handle == spec_app_of(n));
    }
}

} // verus!
