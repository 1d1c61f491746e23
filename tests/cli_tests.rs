use microtex_rs::parse_color;

#[test]
fn test_parse_color_ok() {
    assert_eq!(parse_color("0xff000000").unwrap(), 0xff000000);
    assert_eq!(parse_color("ff000000").unwrap(), 0xff000000);
}

#[test]
fn test_parse_color_err() {
    assert!(parse_color("zzzz").is_err());
}

#[test]
fn parse_color_edges() {
    assert_eq!(parse_color("0x0xAbC").unwrap(), 0xabc);
    assert_eq!(parse_color("+10").unwrap(), 16);
    assert_eq!(parse_color("0xffffffff").unwrap(), u32::MAX);
    assert!(parse_color("0x100000000").is_err());
    assert!(parse_color("0x").is_err());
    assert!(parse_color("").is_err());
    assert!(parse_color("-1").is_err());
}
