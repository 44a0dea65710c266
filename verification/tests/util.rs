use jmmt::util::{make_c_string, Ps2Rgba};

#[test]
fn c_string_stops_at_nul() {
    assert_eq!(make_c_string(b"abc\0def"), Some(String::from("abc")));
    assert_eq!(make_c_string(b"\0abc"), Some(String::new()));
    assert_eq!(make_c_string(b"abc"), Some(String::from("abc")));
    assert_eq!(make_c_string(b""), Some(String::new()));
}

#[test]
fn c_string_decodes_utf8() {
    assert_eq!(make_c_string("é\0x".as_bytes()), Some(String::from("é")));
    assert_eq!(make_c_string(&[0xC3]), None);
    assert_eq!(make_c_string(&[b'a', 0xFF, 0]), None);
    // invalid bytes after the NUL are not looked at
    assert_eq!(make_c_string(&[b'a', 0, 0xFF]), Some(String::from("a")));
}

#[test]
fn rgb565_channels() {
    let c = Ps2Rgba::from_rgb565(0xF800);
    assert_eq!((c.r, c.g, c.b, c.a), (0xF8, 0, 0, 255));
    let c = Ps2Rgba::from_rgb565(0x07E0);
    assert_eq!((c.r, c.g, c.b, c.a), (0, 0xFC, 0, 255));
    let c = Ps2Rgba::from_rgb565(0x001F);
    assert_eq!((c.r, c.g, c.b, c.a), (0, 0, 0xF8, 255));
    let c = Ps2Rgba::from_rgb565(0x0841);
    assert_eq!((c.r, c.g, c.b, c.a), (8, 8, 8, 255));
    let c = Ps2Rgba::from_rgb565(0xFFFF);
    assert_eq!((c.r, c.g, c.b, c.a), (0xF8, 0xFC, 0xF8, 255));
}

#[test]
fn alpha_is_doubled_and_clamped() {
    let px = |a| Ps2Rgba { r: 1, g: 2, b: 3, a }.to_rgba().0;
    assert_eq!(px(0x40), [1, 2, 3, 0x80]);
    assert_eq!(px(0x7F), [1, 2, 3, 0xFE]);
    assert_eq!(px(0x80), [1, 2, 3, 255]);
    assert_eq!(px(0xFF), [1, 2, 3, 255]);
    assert_eq!(px(0), [1, 2, 3, 0]);
    assert_eq!(Ps2Rgba { r: 9, g: 8, b: 7, a: 0x40 }.to_rgba_channels(), [9, 8, 7, 0x80]);
}

#[test]
fn rgb565_colors_are_opaque() {
    assert_eq!(Ps2Rgba::from_rgb565(0).to_rgba().0, [0, 0, 0, 255]);
}
