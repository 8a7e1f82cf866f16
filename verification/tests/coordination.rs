use fowin::{
    ActivationPolicy, AppEvent, AppEventKind, AppHandle, Application, NextStep, ProcessInfo,
    Watcher, Window, WindowEvent, WindowHandle,
};

fn regular(pid: i32) -> ProcessInfo {
    ProcessInfo { pid, policy: ActivationPolicy::Regular }
}

fn per_process_watcher(pid: i32) -> fowin::watch::Watcher {
    let app = Application::new(pid, AppHandle { raw: pid as u64 });
    let windows: Vec<WindowHandle> = Vec::new();
    let codes = vec![0; 10];
    app.watch(&windows, &codes).unwrap()
}

#[test]
fn new_seeds_a_launch_per_qualifying_running_process() {
    let running = vec![
        regular(3),
        ProcessInfo { pid: 4, policy: ActivationPolicy::Accessory },
        ProcessInfo { pid: -1, policy: ActivationPolicy::Regular },
        regular(5),
    ];
    let mut w = Watcher::new(&running);
    assert!(matches!(w.next_request_step(), NextStep::Spawn(3)));
    assert!(matches!(w.next_request_step(), NextStep::Spawn(5)));
    assert!(matches!(w.next_request_step(), NextStep::Block));
    assert!(w.is_watching(3));
    assert!(w.is_watching(5));
    assert!(!w.is_watching(4));
}

// A Terminated event removes the pid's state even while a Registered event
// for the same pid is still in flight: the late registration is discarded.
#[test]
fn terminated_discards_late_registration() {
    let mut w = Watcher::new(&vec![regular(7)]);
    assert!(matches!(w.next_request_step(), NextStep::Spawn(7)));
    assert!(w.is_watching(7));

    // The process dies while its background registration is in flight...
    w.push_process_event(AppEvent { kind: AppEventKind::Terminated, pid: 7 });
    // ...and the registration finishes afterwards.
    w.push_process_event(AppEvent {
        kind: AppEventKind::Registered(per_process_watcher(7)),
        pid: 7,
    });

    assert!(matches!(w.next_request_step(), NextStep::Continue));
    assert!(!w.is_watching(7));
    assert!(matches!(w.next_request_step(), NextStep::Continue));
    // The stale watcher was discarded, not stored.
    assert!(!w.is_watching(7));
}

#[test]
fn registration_for_a_tracked_pid_is_stored() {
    let mut w = Watcher::new(&vec![regular(8)]);
    assert!(matches!(w.next_request_step(), NextStep::Spawn(8)));
    w.push_process_event(AppEvent {
        kind: AppEventKind::Registered(per_process_watcher(8)),
        pid: 8,
    });
    assert!(matches!(w.next_request_step(), NextStep::Continue));
    assert!(w.is_watching(8));
}

// The consumption loop never busy-spins: with nothing pending, every turn
// answers Block (one blocking run-loop wait) and changes nothing.
#[test]
fn idle_turns_always_block() {
    let mut w = Watcher::new(&Vec::new());
    for _ in 0..5 {
        assert!(matches!(w.next_request_step(), NextStep::Block));
        assert!(!w.is_watching(1));
    }
}

// Lifecycle events are drained before window events on the same call.
#[test]
fn lifecycle_is_drained_before_window_events() {
    let mut w = Watcher::new(&Vec::new());
    let win = Window { handle: WindowHandle { raw: 1 }, app_handle: AppHandle { raw: 2 } };
    w.push_event(WindowEvent::Opened(win));
    w.push_process_event(AppEvent { kind: AppEventKind::Launched, pid: 9 });
    assert!(matches!(w.next_request_step(), NextStep::Spawn(9)));
    match w.next_request_step() {
        NextStep::Event(WindowEvent::Opened(got)) => assert_eq!(got, win),
        other => panic!("expected the opened event, got {:?}", other),
    }
    assert!(matches!(w.next_request_step(), NextStep::Block));
}

#[test]
fn events_are_returned_in_posting_order() {
    let mut w = Watcher::new(&Vec::new());
    let a = Window { handle: WindowHandle { raw: 1 }, app_handle: AppHandle { raw: 5 } };
    let b = Window { handle: WindowHandle { raw: 2 }, app_handle: AppHandle { raw: 5 } };
    w.push_event(WindowEvent::Moved(a));
    w.push_event(WindowEvent::Resized(b));
    match w.next_request_step() {
        NextStep::Event(WindowEvent::Moved(got)) => assert_eq!(got, a),
        other => panic!("expected the move first, got {:?}", other),
    }
    match w.next_request_step() {
        NextStep::Event(WindowEvent::Resized(got)) => assert_eq!(got, b),
        other => panic!("expected the resize second, got {:?}", other),
    }
}

// A failed per-process registration is terminal for that process only: it
// is dropped by the platform layer, never enqueued, and the caller of
// next_request observes nothing.
#[test]
fn failed_registrations_never_surface_to_the_caller() {
    let mut w = Watcher::new(&vec![regular(11)]);
    assert!(matches!(w.next_request_step(), NextStep::Spawn(11)));

    // The background registration fails with a fatal code...
    let app = Application::new(11, AppHandle { raw: 11 });
    let windows: Vec<WindowHandle> = Vec::new();
    let mut codes = vec![0; 10];
    codes[0] = -25200;
    assert!(app.watch(&windows, &codes).is_err());

    // ...and nothing of it reaches the consumption loop: no event queue
    // entry exists for it, so the next turn can only block, and the other
    // processes' handling is untouched.
    assert!(matches!(w.next_request_step(), NextStep::Block));
    assert!(w.is_watching(11));
}

#[test]
fn process_change_posts_and_signals() {
    let mut w = Watcher::new(&Vec::new());
    let sent = w.observe_process_change(&vec![regular(21)], &vec![regular(22)]);
    assert!(sent);
    assert!(matches!(w.next_request_step(), NextStep::Spawn(21)));
    assert!(matches!(w.next_request_step(), NextStep::Continue));
    assert!(!w.is_watching(22));
    assert!(matches!(w.next_request_step(), NextStep::Block));
}

#[test]
fn process_change_with_no_qualifying_apps_stays_silent() {
    let mut w = Watcher::new(&Vec::new());
    let sent = w.observe_process_change(
        &vec![ProcessInfo { pid: -1, policy: ActivationPolicy::Regular }],
        &vec![ProcessInfo { pid: 30, policy: ActivationPolicy::Prohibited }],
    );
    assert!(!sent);
    assert!(matches!(w.next_request_step(), NextStep::Block));
}

#[test]
fn context_wake_signal_is_consumed_once() {
    let mut ctx = fowin::Context::new();
    assert!(!ctx.take_wake());
    let sent = ctx.process_change(&vec![regular(1)], &Vec::new());
    assert!(sent);
    assert!(ctx.take_wake());
    assert!(!ctx.take_wake());
    assert!(ctx.has_pending());
    let e = ctx.take_next().unwrap();
    assert_eq!(e.pid, 1);
    assert!(matches!(e.kind, AppEventKind::Launched));
    assert!(ctx.take_next().is_none());
}
