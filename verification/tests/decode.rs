use index_redirect::decode::{decode_segment, percent_decode};
use index_redirect::error::LookupError;

#[test]
fn plain_bytes_decode_to_themselves() {
    assert_eq!(Some(b"serde".to_vec()), percent_decode(b"serde"));
    assert_eq!(Some(b"1.0.0+build".to_vec()), percent_decode(b"1.0.0+build"));
    assert_eq!(Some(Vec::new()), percent_decode(b""));
}

#[test]
fn escapes_decode_to_their_byte() {
    assert_eq!(Some(b"a b".to_vec()), percent_decode(b"a%20b"));
    assert_eq!(Some(b"1.0.0+x".to_vec()), percent_decode(b"1.0.0%2Bx"));
    assert_eq!(Some(b"1.0.0+x".to_vec()), percent_decode(b"1.0.0%2bx"));
    assert_eq!(Some(vec![0x00, 0xff, 0x7f]), percent_decode(b"%00%fF%7f"));
    assert_eq!(Some(b"%41".to_vec()), percent_decode(b"%2541"));
    assert_eq!(Some(b"/".to_vec()), percent_decode(b"%2F"));
}

#[test]
fn broken_escapes_do_not_decode() {
    assert_eq!(None, percent_decode(b"%"));
    assert_eq!(None, percent_decode(b"abc%"));
    assert_eq!(None, percent_decode(b"abc%4"));
    assert_eq!(None, percent_decode(b"%zz"));
    assert_eq!(None, percent_decode(b"%4g"));
    assert_eq!(None, percent_decode(b"%g4abc"));
    assert_eq!(None, percent_decode(b"ok%20%"));
    assert_eq!(None, percent_decode(b"%%41"));
}

#[test]
fn segment_decodes_to_text() {
    assert_eq!(Ok("serde".to_owned()), decode_segment("serde"));
    assert_eq!(Ok("1.0.0+x".to_owned()), decode_segment("1.0.0%2Bx"));
    assert_eq!(Ok("\u{e9}".to_owned()), decode_segment("%C3%A9"));
    assert_eq!(Ok("\u{e9}t\u{e9}".to_owned()), decode_segment("\u{e9}t%c3%a9"));
    assert_eq!(Ok(String::new()), decode_segment(""));
}

#[test]
fn malformed_segment_is_invalid_input() {
    assert_eq!(Err(LookupError::InvalidInput), decode_segment("100%"));
    assert_eq!(Err(LookupError::InvalidInput), decode_segment("%G0"));
    assert_eq!(Err(LookupError::InvalidInput), decode_segment("%FF"));
    assert_eq!(Err(LookupError::InvalidInput), decode_segment("%C3"));
    assert_eq!(Err(LookupError::InvalidInput), decode_segment("a%C3b"));
}
