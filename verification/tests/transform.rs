use strbound::buffer::TransferBuffer;
use strbound::my_app::my_app_free_string_by_raw_parts;
use strbound::my_app::my_app_receive_str_and_return_str;
use strbound::my_app::my_app_receive_str_and_return_string;
use strbound::my_app::my_app_receive_string_and_return_str;
use strbound::my_app::my_app_receive_string_and_return_string;
use strbound::my_app::my_app_simple_rust_func_called_from_go;

#[test]
fn simple_func_adds_the_arguments() {
    assert_eq!(my_app_simple_rust_func_called_from_go(0, 0, 0), 0);
    assert_eq!(my_app_simple_rust_func_called_from_go(1, 2, 3), 6);
    assert_eq!(
        my_app_simple_rust_func_called_from_go(255, 65535, 4294967295),
        255 + 65535 + 4294967295
    );
}

#[test]
fn identity_below_threshold_owned() {
    let s = b"hello".to_vec();
    assert_eq!(my_app_receive_string_and_return_string(s.clone()), s);
}

#[test]
fn identity_at_threshold_owned() {
    let s = b"exactly15bytes!".to_vec();
    assert_eq!(s.len(), 15);
    assert_eq!(my_app_receive_string_and_return_string(s.clone()), s);
}

#[test]
fn identity_of_empty_owned() {
    let s: Vec<u8> = Vec::new();
    assert_eq!(my_app_receive_string_and_return_string(s.clone()), s);
}

#[test]
fn truncates_above_threshold_owned() {
    let s = b"sixteen bytes!!!".to_vec();
    assert_eq!(s.len(), 16);
    assert_eq!(my_app_receive_string_and_return_string(s), b"sixteen bytes!!".to_vec());
}

#[test]
fn identity_below_threshold_borrowed() {
    assert_eq!(my_app_receive_str_and_return_string(b"hello"), b"hello".to_vec());
}

#[test]
fn truncates_above_threshold_borrowed() {
    let s = b"a long line of text";
    assert_eq!(my_app_receive_str_and_return_string(s), s[0..15].to_vec());
}

#[test]
fn identity_below_threshold_view() {
    let s = b"hello";
    assert_eq!(my_app_receive_str_and_return_str(s), s);
}

#[test]
fn truncates_above_threshold_view() {
    let s = b"0123456789abcdefgh";
    assert_eq!(my_app_receive_str_and_return_str(s), &s[0..15]);
}

#[test]
fn truncation_may_split_a_multibyte_encoding() {
    // 14 ASCII bytes followed by a two-byte encoding: the cut at byte 15
    // keeps only the leading byte 0xc3. The assertion is on raw bytes; the
    // truncated output is deliberately not re-validated as UTF-8.
    let mut s = b"abcdefghijklmn".to_vec();
    s.extend_from_slice("é".as_bytes());
    assert_eq!(s.len(), 16);
    let out = my_app_receive_string_and_return_string(s.clone());
    assert_eq!(out.len(), 15);
    assert_eq!(out, s[0..15].to_vec());
    assert_eq!(out[14], 0xc3);
    assert!(std::str::from_utf8(&out).is_err());
}

#[test]
fn own_in_borrow_out_hands_back_the_whole_buffer() {
    let s = b"a rather long line of text".to_vec();
    let (len, origin) = my_app_receive_string_and_return_str(s.clone());
    assert_eq!(len, 15);
    assert_eq!(origin.as_slice(), s.as_slice());
    assert_eq!(&origin.as_slice()[0..len], &s[0..15]);
    my_app_free_string_by_raw_parts(origin);
}

#[test]
fn own_in_borrow_out_short_input() {
    let s = b"short".to_vec();
    let (len, origin) = my_app_receive_string_and_return_str(s.clone());
    assert_eq!(len, 5);
    assert_eq!(origin.into_vec(), s);
}

#[test]
fn transfer_buffer_round_trip() {
    let v = b"whatever bytes \x00 even a nul".to_vec();
    let t = TransferBuffer::from_vec(v.clone());
    assert_eq!(t.as_slice(), v.as_slice());
    assert_eq!(t.into_vec(), v);
}
