#[test]
fn test_trust() {
    let is_trusted = fowin::trusted();
    let check_is_trusted = fowin::request_trust();

    // if it's false, we can't test selecting the prompt
    // if it's true, then requesting trust should always be true anyways
    if is_trusted {
        assert!(check_is_trusted.unwrap())
    }
}
