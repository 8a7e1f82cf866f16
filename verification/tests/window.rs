use fowin::Window;

fn needs_send<T: Send>() {}
fn needs_sync<T: Sync>() {}

#[test]
fn test_window_send() {
    needs_send::<Window>();
}

#[test]
fn test_window_sync() {
    needs_sync::<Window>();
}
