use std::mem::size_of;

#[test]
fn size_eq() {
    assert_eq!(size_of::<usize>(), size_of::<libc::size_t>());
    assert_eq!(size_of::<usize>(), size_of::<&u8>());
}
