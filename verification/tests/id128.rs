use systemd::id128::Id128;

#[test]
fn parse_plain_form() {
    let id = Id128::from_cstr("0123456789abcdef0123456789ABCDEF").unwrap();
    assert_eq!(
        id.as_bytes(),
        &[
            0x01, 0x23, 0x45, 0x67, 0x89, 0xab, 0xcd, 0xef, 0x01, 0x23, 0x45, 0x67, 0x89, 0xab,
            0xcd, 0xef
        ][..]
    );
}

#[test]
fn parse_dashed_form() {
    let id = Id128::from_cstr("01234567-89ab-cdef-0123-456789abcdef").unwrap();
    assert_eq!(
        id.as_bytes(),
        &[
            0x01, 0x23, 0x45, 0x67, 0x89, 0xab, 0xcd, 0xef, 0x01, 0x23, 0x45, 0x67, 0x89, 0xab,
            0xcd, 0xef
        ][..]
    );
}

#[test]
fn parse_rejects_malformed() {
    assert!(Id128::from_cstr("").is_err());
    assert!(Id128::from_cstr("0123").is_err());
    assert!(Id128::from_cstr("0123456789abcdef0123456789abcde").is_err());
    assert!(Id128::from_cstr("0123456789abcdef0123456789abcdeg").is_err());
    assert!(Id128::from_cstr("01234567x89ab-cdef-0123-456789abcdef").is_err());
    let e = Id128::from_cstr("not an id").err().unwrap();
    assert_eq!(e.code, systemd::EINVAL);
}

#[test]
fn null_id() {
    let id = Id128::default();
    assert_eq!(id.as_bytes(), &[0u8; 16][..]);
    let copy = id.clone();
    assert_eq!(copy.as_bytes(), &[0u8; 16][..]);
}

#[test]
fn render_and_parse_round_trip() {
    let id = Id128::from_cstr("0123456789abcdefFEDCBA9876543210").unwrap();
    let text = id.to_hex_string();
    assert_eq!(text, "0123456789abcdeffedcba9876543210");
    let back = Id128::from_cstr(&text).unwrap();
    assert_eq!(back.as_bytes(), id.as_bytes());
}
