use fowin::{
    Operation, PhysicalPosition, PhysicalSize, Property, Scope, Screen, WindowError,
};

#[test]
fn encode_title_combines_id_and_title() {
    assert_eq!(fowin::encode_title(7, "ab"), "7: ab");
    assert_eq!(fowin::encode_title(42, "x"), "42: x");
    assert_eq!(fowin::encode_title(0, ""), "0: ");
    assert_eq!(fowin::encode_title(1004, "fowin window"), "1004: fowin window");
}

#[test]
fn encode_title_with_namespace_prefixes_it() {
    assert_eq!(fowin::ipc::encode_title(&Some("ns".to_string()), 3, "t"), "ns-3: t");
    assert_eq!(fowin::ipc::encode_title(&None, 3, "t"), "3: t");
}

#[test]
fn ax_error_codes_map_onto_the_taxonomy() {
    assert_eq!(WindowError::from_ax_error(-25211), WindowError::NotTrusted);
    assert_eq!(WindowError::from_ax_error(-25201), WindowError::InvalidInternalArgument);
    assert_eq!(WindowError::from_ax_error(-25202), WindowError::InvalidHandle);
    assert_eq!(WindowError::from_ax_error(-25203), WindowError::InvalidHandle);
    assert_eq!(WindowError::from_ax_error(-25208), WindowError::Unsupported);
    assert_eq!(WindowError::from_ax_error(-25212), WindowError::Unsupported);
    assert_eq!(WindowError::from_ax_error(-25205), WindowError::Unsupported);
    assert_eq!(WindowError::from_ax_error(-25213), WindowError::Unsupported);
    assert_eq!(WindowError::from_ax_error(-25206), WindowError::Unsupported);
    assert_eq!(WindowError::from_ax_error(-25207), WindowError::Unsupported);
    // bookkeeping codes that should never occur are arbitrary failures
    assert_eq!(WindowError::from_ax_error(-25209), WindowError::ArbitraryFailure);
    assert_eq!(WindowError::from_ax_error(-25210), WindowError::ArbitraryFailure);
    assert_eq!(WindowError::from_ax_error(-25214), WindowError::ArbitraryFailure);
    assert_eq!(WindowError::from_ax_error(-25204), WindowError::ArbitraryFailure);
    assert_eq!(WindowError::from_ax_error(-25200), WindowError::ArbitraryFailure);
    assert_eq!(WindowError::from_ax_error(12345), WindowError::ArbitraryFailure);
    assert_eq!(WindowError::from_os_code(6), WindowError::OsError(6));
}

#[test]
fn error_messages_describe_each_variant() {
    assert_eq!(
        WindowError::NotTrusted.message(),
        "the program needs to request permission to the underlying API"
    );
    assert_eq!(WindowError::InvalidHandle.message(), "cannot perform operation on invalid handle");
    assert_eq!(
        WindowError::Unsupported.message(),
        "the window does not support the windowing API"
    );
    assert_eq!(
        WindowError::ArbitraryFailure.message(),
        "arbitrary failure returned by the operating system"
    );
}

#[test]
fn ipc_error_messages_carry_the_detail() {
    assert_eq!(fowin::IpcError::InitFailure.message(), "failed to initialize stream");
    assert_eq!(
        fowin::IpcError::Execution("step 3 failed".to_string()).message(),
        "step 3 failed"
    );
    assert_eq!(
        fowin::IpcError::InvalidProp("expected title".to_string()).message(),
        "expected title"
    );
}

#[test]
fn only_rename_is_local() {
    for op in Operation::all() {
        match op {
            Operation::Rename => assert_eq!(op.scope(), Scope::Local),
            _ => assert_eq!(op.scope(), Scope::Global),
        }
    }
    assert_eq!(Operation::all().len(), 9);
}

#[test]
fn constraints_guard_resize_and_move() {
    let all = fowin::Constraint::all();
    assert_eq!(all.len(), 2);
    assert_eq!(all[0].operation, Operation::Resize);
    assert_eq!(all[1].operation, Operation::Move);
    for c in &all {
        assert_eq!(
            c.properties,
            vec![Property::Fullscreened(false), Property::Hidden(false)]
        );
    }
}

#[test]
fn screen_reports_the_described_display() {
    let s = Screen::new(
        7,
        "Built-in Display".to_string(),
        PhysicalSize { width: 2560, height: 1600 },
        PhysicalPosition { x: 0, y: 0 },
    );
    assert_eq!(s.handle(), 7);
    assert_eq!(s.name(), "Built-in Display");
    assert_eq!(s.size(), PhysicalSize { width: 2560, height: 1600 });
    assert_eq!(s.position(), PhysicalPosition { x: 0, y: 0 });
    assert_eq!(s.physical_position(), PhysicalPosition { x: 0, y: 0 });
    assert!(s.is_primary(7));
    assert!(!s.is_primary(8));
}
