use strbound::buffer::BoundaryError;
use strbound::buffer::NulBuffer;

#[test]
fn round_trip_through_nul_terminated_buffer() {
    let text = b"round trip".to_vec();
    let c = NulBuffer::from_bytes(text.clone()).unwrap();
    assert_eq!(c.decode(), text);
}

#[test]
fn round_trip_of_empty_text() {
    let c = NulBuffer::from_bytes(Vec::new()).unwrap();
    assert_eq!(c.len(), 1);
    assert_eq!(c.decode(), Vec::<u8>::new());
}

#[test]
fn round_trip_of_multibyte_text() {
    let text = "héllo wörld".as_bytes().to_vec();
    let c = NulBuffer::from_bytes(text.clone()).unwrap();
    assert_eq!(c.decode(), text);
}

#[test]
fn encoder_appends_exactly_one_terminator() {
    let c = NulBuffer::from_bytes(b"ab".to_vec()).unwrap();
    assert_eq!(c.into_bytes(), b"ab\x00".to_vec());
}

#[test]
fn embedded_nul_is_rejected() {
    let r = NulBuffer::from_bytes(b"a\x00b".to_vec());
    assert_eq!(r.unwrap_err(), BoundaryError::EmbeddedNull);
}

#[test]
fn leading_nul_is_rejected() {
    let r = NulBuffer::from_bytes(b"\x00ab".to_vec());
    assert_eq!(r.unwrap_err(), BoundaryError::EmbeddedNull);
}

#[test]
fn trailing_nul_is_rejected() {
    // The terminator is the encoder's to add; text ending in a nul still
    // holds an interior nul once terminated.
    let r = NulBuffer::from_bytes(b"ab\x00".to_vec());
    assert_eq!(r.unwrap_err(), BoundaryError::EmbeddedNull);
}
