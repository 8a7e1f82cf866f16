use fowin::{AppHandle, Notification, Window, WindowEvent, WindowHandle};

fn app() -> AppHandle {
    AppHandle { raw: 90 }
}

fn win(raw: u64) -> Window {
    Window { handle: WindowHandle { raw }, app_handle: app() }
}

#[test]
fn info_maps_each_notification_to_its_event() {
    let w = win(1);
    assert_eq!(Notification::Created(app()).info(Some(w)), WindowEvent::Opened(w));
    assert_eq!(Notification::Focused(app()).info(Some(w)), WindowEvent::Focused(w));
    assert_eq!(Notification::Activated(app()).info(Some(w)), WindowEvent::Focused(w));
    assert_eq!(Notification::Moved(app()).info(Some(w)), WindowEvent::Moved(w));
    assert_eq!(Notification::Resized(app()).info(Some(w)), WindowEvent::Resized(w));
    assert_eq!(Notification::Renamed(app()).info(Some(w)), WindowEvent::Renamed(w));
    assert_eq!(Notification::Shown(app()).info(Some(w)), WindowEvent::Shown(w));
    assert_eq!(Notification::Hidden(app()).info(Some(w)), WindowEvent::Hidden(w));
    assert_eq!(Notification::Miniaturized(app()).info(Some(w)), WindowEvent::Minimized(w));
    assert_eq!(Notification::Deminiaturized(app()).info(Some(w)), WindowEvent::Unminimized(w));
    assert_eq!(
        Notification::Destroyed(w.handle).info(None),
        WindowEvent::Closed(WindowHandle { raw: 1 })
    );
}

#[test]
fn notification_names_match_native_constants() {
    assert_eq!(Notification::Created(app()).name(), "AXWindowCreated");
    assert_eq!(Notification::Destroyed(WindowHandle { raw: 1 }).name(), "AXUIElementDestroyed");
    assert_eq!(Notification::Focused(app()).name(), "AXFocusedWindowChanged");
    assert_eq!(Notification::Activated(app()).name(), "AXApplicationActivated");
    assert_eq!(Notification::Moved(app()).name(), "AXMoved");
    assert_eq!(Notification::Resized(app()).name(), "AXResized");
    assert_eq!(Notification::Renamed(app()).name(), "AXTitleChanged");
    assert_eq!(Notification::Shown(app()).name(), "AXApplicationShown");
    assert_eq!(Notification::Hidden(app()).name(), "AXApplicationHidden");
    assert_eq!(Notification::Miniaturized(app()).name(), "AXWindowMiniaturized");
    assert_eq!(Notification::Deminiaturized(app()).name(), "AXWindowDeminiaturized");
}

#[test]
fn window_payload_event_wraps_the_element() {
    let n = Notification::Created(app());
    let r = fowin::notify::window_payload_event(&n, Some(WindowHandle { raw: 7 }));
    assert_eq!(r, Some(WindowEvent::Opened(win(7))));
}

#[test]
fn window_payload_event_drops_invalid_elements() {
    let n = Notification::Moved(app());
    assert_eq!(fowin::notify::window_payload_event(&n, None), None);
}

#[test]
fn activated_event_reports_the_focused_window() {
    let n = Notification::Activated(app());
    let r = fowin::notify::activated_event(&n, Some(WindowHandle { raw: 4 }));
    assert_eq!(r, Some(WindowEvent::Focused(win(4))));
}

#[test]
fn activated_event_drops_when_app_has_no_focused_window() {
    let n = Notification::Activated(app());
    assert_eq!(fowin::notify::activated_event(&n, None), None);
}

// Hiding the application with two windows yields exactly two Hidden events,
// one per window, both referencing the same application.
#[test]
fn app_hidden_yields_one_event_per_window() {
    let n = Notification::Hidden(app());
    let windows = vec![win(10), win(11)];
    let events = fowin::notify::app_visibility_events(&n, &windows);
    assert_eq!(events.len(), 2);
    assert_eq!(events[0], WindowEvent::Hidden(win(10)));
    assert_eq!(events[1], WindowEvent::Hidden(win(11)));
    for e in &events {
        match e {
            WindowEvent::Hidden(w) => assert_eq!(w.app_handle, app()),
            _ => panic!("expected a Hidden event"),
        }
    }
}

#[test]
fn app_shown_yields_one_event_per_window() {
    let n = Notification::Shown(app());
    let windows = vec![win(1), win(2), win(3)];
    let events = fowin::notify::app_visibility_events(&n, &windows);
    assert_eq!(
        events,
        vec![
            WindowEvent::Shown(win(1)),
            WindowEvent::Shown(win(2)),
            WindowEvent::Shown(win(3)),
        ]
    );
}

#[test]
fn app_visibility_with_no_windows_yields_nothing() {
    let n = Notification::Hidden(app());
    let events = fowin::notify::app_visibility_events(&n, &Vec::new());
    assert!(events.is_empty());
}

// Round trip: the Opened event's window identity matches the Closed event's
// captured identity, though the window is no longer queryable at Closed time.
#[test]
fn open_close_round_trip_preserves_identity() {
    let w = win(77);
    let opened = fowin::notify::window_payload_event(
        &Notification::Created(app()),
        Some(w.handle),
    )
    .unwrap();
    let closed = fowin::notify::destroyed_event(&Notification::Destroyed(w.handle));
    let opened_handle = match opened {
        WindowEvent::Opened(ow) => ow.handle,
        _ => panic!("expected Opened"),
    };
    let closed_handle = match closed {
        WindowEvent::Closed(h) => h,
        _ => panic!("expected Closed"),
    };
    assert_eq!(opened_handle, closed_handle);
}
