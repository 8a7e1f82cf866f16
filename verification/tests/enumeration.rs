use fowin::{
    ActivationPolicy, AppHandle, AppWindows, FocusProbe, ProcessInfo, Window, WindowHandle,
};

fn win(app: u64, raw: u64) -> Window {
    Window { handle: WindowHandle { raw }, app_handle: AppHandle { raw: app } }
}

#[test]
fn filter_keeps_regular_apps_with_real_pids() {
    let apps = vec![
        ProcessInfo { pid: 1, policy: ActivationPolicy::Regular },
        ProcessInfo { pid: 2, policy: ActivationPolicy::Accessory },
        ProcessInfo { pid: -1, policy: ActivationPolicy::Regular },
        ProcessInfo { pid: 3, policy: ActivationPolicy::Prohibited },
        ProcessInfo { pid: 4, policy: ActivationPolicy::Regular },
    ];
    let kept = fowin::apps::filter_apps(&apps);
    assert_eq!(kept.len(), 2);
    assert_eq!(kept[0].pid, 1);
    assert_eq!(kept[1].pid, 4);
}

#[test]
fn filter_of_empty_list_is_empty() {
    assert!(fowin::apps::filter_apps(&Vec::new()).is_empty());
}

// Enumeration includes every window of every qualifying process, excludes
// other processes' windows entirely, and yields no duplicates.
#[test]
fn iter_windows_covers_qualifying_processes_exactly() {
    let table = vec![
        AppWindows {
            app: ProcessInfo { pid: 1, policy: ActivationPolicy::Regular },
            windows: vec![win(1, 10), win(1, 11)],
        },
        AppWindows {
            app: ProcessInfo { pid: 2, policy: ActivationPolicy::Accessory },
            windows: vec![win(2, 20)],
        },
        AppWindows {
            app: ProcessInfo { pid: -1, policy: ActivationPolicy::Regular },
            windows: vec![win(3, 30)],
        },
        AppWindows {
            app: ProcessInfo { pid: 4, policy: ActivationPolicy::Regular },
            windows: vec![win(4, 40)],
        },
    ];
    let all = fowin::apps::iter_windows(&table);
    assert_eq!(all, vec![win(1, 10), win(1, 11), win(4, 40)]);
    // no duplicates
    for i in 0..all.len() {
        for j in (i + 1)..all.len() {
            assert_ne!(all[i].handle, all[j].handle);
        }
    }
}

#[test]
fn iter_windows_of_empty_table_is_empty() {
    assert!(fowin::apps::iter_windows(&Vec::new()).is_empty());
}

#[test]
fn a_process_with_no_windows_contributes_nothing() {
    let table = vec![AppWindows {
        app: ProcessInfo { pid: 9, policy: ActivationPolicy::Regular },
        windows: Vec::new(),
    }];
    assert!(fowin::apps::iter_windows(&table).is_empty());
}

#[test]
fn focused_window_picks_the_first_focused() {
    let probes = vec![
        FocusProbe { window: win(1, 10), focused: false },
        FocusProbe { window: win(1, 11), focused: true },
        FocusProbe { window: win(1, 12), focused: true },
    ];
    assert_eq!(fowin::apps::focused_window(&probes), Some(win(1, 11)));
}

#[test]
fn focused_window_is_none_when_nothing_is_focused() {
    let probes = vec![
        FocusProbe { window: win(1, 10), focused: false },
        FocusProbe { window: win(1, 11), focused: false },
    ];
    assert_eq!(fowin::apps::focused_window(&probes), None);
    assert_eq!(fowin::apps::focused_window(&Vec::new()), None);
}
