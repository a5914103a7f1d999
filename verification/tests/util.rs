use mycelium::util::expect_display;

#[test]
fn expect_display_returns_ok_value() {
    let r: Result<u32, String> = Ok(7);
    assert_eq!(expect_display(r, "should not fail"), 7);
}
