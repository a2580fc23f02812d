//! Decoding of native byte strings.

use egli::{decode_native_text, Error};

#[test]
fn ascii_bytes_decode_to_matching_text() {
    assert_eq!(decode_native_text(b"EGL_KHR_image".to_vec()).unwrap(), "EGL_KHR_image");
}

#[test]
fn empty_bytes_decode_to_empty_text() {
    assert_eq!(decode_native_text(Vec::new()).unwrap(), "");
}

#[test]
fn multibyte_sequences_decode() {
    assert_eq!(decode_native_text("véndor".as_bytes().to_vec()).unwrap(), "véndor");
    assert_eq!(
        decode_native_text(vec![0xF0, 0x9F, 0x98, 0x80]).unwrap(),
        "\u{1F600}"
    );
}

#[test]
fn overlong_encoding_is_rejected() {
    assert_eq!(
        decode_native_text(vec![0xC0, 0xAF]).unwrap_err(),
        Error::NonUtf8StringReceived
    );
}

#[test]
fn surrogate_encoding_is_rejected() {
    assert_eq!(
        decode_native_text(vec![0xED, 0xA0, 0x80]).unwrap_err(),
        Error::NonUtf8StringReceived
    );
}

#[test]
fn out_of_range_scalar_is_rejected() {
    assert_eq!(
        decode_native_text(vec![0xF4, 0x90, 0x80, 0x80]).unwrap_err(),
        Error::NonUtf8StringReceived
    );
}

#[test]
fn bare_continuation_byte_is_rejected() {
    assert_eq!(
        decode_native_text(vec![0x80]).unwrap_err(),
        Error::NonUtf8StringReceived
    );
}

#[test]
fn validator_agrees_with_decoding_outcome() {
    let samples: Vec<Vec<u8>> = vec![
        b"plain ascii".to_vec(),
        "véndor".as_bytes().to_vec(),
        vec![0xF0, 0x9F, 0x98, 0x80],
        vec![],
        vec![0xC0, 0xAF],
        vec![0xED, 0xA0, 0x80],
        vec![0xF4, 0x90, 0x80, 0x80],
        vec![0x80],
        vec![0xE2, 0x82],
        vec![0xC2],
    ];
    for bytes in samples {
        let valid = egli::validate_utf8(&bytes);
        assert_eq!(valid, decode_native_text(bytes).is_ok());
    }
}
