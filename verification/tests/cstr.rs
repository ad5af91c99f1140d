use bento::errno::Error;
use bento::kobj::CStr;

#[test]
fn view_over_terminated_string_has_length_without_terminator() {
    let bytes = [b'h', b'e', b'l', b'l', b'o', 0];
    let s = CStr::from_bytes_with_nul(&bytes).expect("a terminated string");
    assert_eq!(s.len(), 5);
}

#[test]
fn view_rejects_terminator_before_the_end() {
    let bytes = [b'h', b'e', 0, b'l', 0];
    assert_eq!(CStr::from_bytes_with_nul(&bytes).err(), Some(Error::EIO));
}

#[test]
fn view_rejects_missing_terminator() {
    let bytes = [b'h', b'e', b'l', b'l', b'o'];
    assert_eq!(CStr::from_bytes_with_nul(&bytes).err(), Some(Error::EIO));
}

#[test]
fn view_rejects_empty_input() {
    let bytes: [u8; 0] = [];
    assert_eq!(CStr::from_bytes_with_nul(&bytes).err(), Some(Error::EIO));
}

#[test]
fn view_rejects_two_terminators_at_the_end() {
    let bytes = [b'a', 0, 0];
    assert_eq!(CStr::from_bytes_with_nul(&bytes).err(), Some(Error::EIO));
}

#[test]
fn view_over_lone_terminator_is_the_empty_string() {
    let bytes = [0u8];
    let s = CStr::from_bytes_with_nul(&bytes).expect("the empty string");
    assert_eq!(s.len(), 0);
    assert_eq!(s.to_bytes_with_nul(), &[] as &[u8]);
    assert_eq!(s.to_raw(), &[0u8]);
}

#[test]
fn bytes_of_a_view_stop_before_the_terminator() {
    let bytes = [b'h', b'e', b'l', b'l', b'o', 0];
    let s = CStr::from_bytes_with_nul(&bytes).expect("a terminated string");
    assert_eq!(s.to_bytes_with_nul(), b"hello");
    assert_eq!(s.to_bytes_with_nul().len(), s.len());
}

#[test]
fn raw_bytes_of_a_view_keep_the_terminator() {
    let bytes = [b'f', b's', 0];
    let s = CStr::from_bytes_with_nul(&bytes).expect("a terminated string");
    assert_eq!(s.to_raw(), &[b'f', b's', 0]);
    assert_eq!(s.to_raw().len(), s.len() + 1);
}

#[test]
fn view_carries_bytes_above_ascii() {
    let bytes = [0xff, 0x80, 0x01, 0];
    let s = CStr::from_bytes_with_nul(&bytes).expect("a terminated string");
    assert_eq!(s.len(), 3);
    assert_eq!(s.to_bytes_with_nul(), &[0xff, 0x80, 0x01]);
}
