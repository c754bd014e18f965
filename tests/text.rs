use whisper_rs::text::{c_string, decode_text, decode_text_lossy};
use whisper_rs::WhisperError;

#[test]
fn c_string_appends_terminator() {
    assert_eq!(c_string("ab").unwrap(), vec![b'a', b'b', 0]);
    assert_eq!(c_string("").unwrap(), vec![0]);
}

#[test]
fn c_string_reports_first_nul() {
    assert_eq!(
        c_string("Hello\0, wor\0ld!"),
        Err(WhisperError::NullByteInString { idx: 5 })
    );
    assert_eq!(c_string("\0"), Err(WhisperError::NullByteInString { idx: 0 }));
}

#[test]
fn decode_text_valid() {
    assert_eq!(decode_text("héllo".as_bytes()).unwrap(), "héllo");
    assert_eq!(decode_text(b"").unwrap(), "");
}

#[test]
fn decode_text_reports_invalid_sequence() {
    assert_eq!(
        decode_text(&[0x61, 0x62, 0xff, 0x63]),
        Err(WhisperError::InvalidUtf8 { error_len: Some(1), valid_up_to: 2 })
    );
    assert_eq!(
        decode_text(&[0x61, 0xe2, 0x82]),
        Err(WhisperError::InvalidUtf8 { error_len: None, valid_up_to: 1 })
    );
}

#[test]
fn decode_text_lossy_replaces() {
    assert_eq!(decode_text_lossy(&[0x61, 0xff, 0x62]), "a\u{FFFD}b");
    assert_eq!(decode_text_lossy(b"plain"), "plain");
}
