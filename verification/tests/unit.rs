#[test]
fn escape_name() {
    let samples = vec![
        // (input, escaped)
        ("test", "test"),
        ("a:b_c.d", "a:b_c.d"),
        ("/foo/", "-foo-"),
        (".foo", "\\x2efoo"),
        ("Hall\u{f6}chen, Meister", "Hall\\xc3\\xb6chen\\x2c\\x20Meister"),
    ];

    for (input, expected) in samples {
        assert_eq!(systemd::unit::escape_name(input), expected);
    }
}

#[test]
fn escape_name_leading_dot_only() {
    // only the first byte's dot is escaped
    assert_eq!(systemd::unit::escape_name("..a."), "\\x2e.a.");
    assert_eq!(systemd::unit::escape_name(""), "");
    assert_eq!(systemd::unit::escape_name("-"), "\\x2d");
}
