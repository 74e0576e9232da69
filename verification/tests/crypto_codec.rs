//! Password encryption and captcha decoding, checked against the real
//! cipher and codec crates.

use aes::cipher::block_padding::Pkcs7;
use aes::cipher::generic_array::GenericArray;
use aes::cipher::{BlockDecryptMut, KeyInit};

use funky_lesson_core::crypto::{decode_captcha_image, encrypt_password, extract_aes_key};
use funky_lesson_core::error::ErrorKind;

const KEY: &[u8] = b"0123456789abcdef";

fn decrypt(key: &[u8], ciphertext: &[u8]) -> Vec<u8> {
    let mut buf = ciphertext.to_vec();
    let plain = ecb::Decryptor::<aes::Aes128>::new(GenericArray::from_slice(key))
        .decrypt_padded_mut::<Pkcs7>(&mut buf)
        .expect("padding must be valid");
    plain.to_vec()
}

#[test]
fn encrypt_password_round_trips_through_the_cipher() {
    let encrypted = encrypt_password("hunter2", KEY).expect("valid key and password");
    let ciphertext = base64_simd::STANDARD
        .decode_to_vec(&encrypted)
        .expect("output must be base64");
    assert_eq!(ciphertext.len(), 16);
    assert_ne!(ciphertext.as_slice(), b"hunter2".as_slice());
    assert_eq!(decrypt(KEY, &ciphertext), b"hunter2");
}

#[test]
fn encrypt_password_pads_to_whole_blocks() {
    // 16 bytes of input need a second, fully padded block
    let encrypted = encrypt_password("0123456789abcdef", KEY).unwrap();
    let ciphertext = base64_simd::STANDARD.decode_to_vec(&encrypted).unwrap();
    assert_eq!(ciphertext.len(), 32);
    assert_eq!(decrypt(KEY, &ciphertext), b"0123456789abcdef");

    let empty = encrypt_password("", KEY).unwrap();
    let ciphertext = base64_simd::STANDARD.decode_to_vec(&empty).unwrap();
    assert_eq!(ciphertext.len(), 16);
    assert_eq!(decrypt(KEY, &ciphertext), b"");
}

#[test]
fn encrypt_password_rejects_a_key_that_is_not_16_bytes() {
    let err = encrypt_password("pw", b"short").unwrap_err();
    assert!(matches!(err, ErrorKind::ParseError(_)));
    let err = encrypt_password("pw", b"0123456789abcdef0").unwrap_err();
    assert!(matches!(err, ErrorKind::ParseError(_)));
}

#[test]
fn encrypt_password_rejects_a_password_too_long_to_pad() {
    let long = "x".repeat(128);
    let err = encrypt_password(&long, KEY).unwrap_err();
    assert!(matches!(err, ErrorKind::ParseError(_)));
    // 127 bytes still fit
    let just_fits = "x".repeat(127);
    let encrypted = encrypt_password(&just_fits, KEY).unwrap();
    let ciphertext = base64_simd::STANDARD.decode_to_vec(&encrypted).unwrap();
    assert_eq!(ciphertext.len(), 128);
}

#[test]
fn extract_aes_key_reads_the_quoted_key_after_the_marker() {
    let html = r#"<script>loginVue.loginForm.aesKey = "0123456789abcdef";</script>"#;
    assert_eq!(extract_aes_key(html).unwrap(), "0123456789abcdef");
}

#[test]
fn extract_aes_key_takes_the_first_marker_and_first_quotes() {
    let html = "var other = \"noise\"; loginVue.loginForm.aesKey = \"realkey0realkey0\"; loginVue.loginForm.aesKey = \"decoy\";";
    // quotes are searched only from the marker on
    assert_eq!(extract_aes_key(html).unwrap(), "realkey0realkey0");
}

#[test]
fn extract_aes_key_rejects_pages_without_marker_or_quotes() {
    let err = extract_aes_key("<html>no key here</html>").unwrap_err();
    assert!(matches!(err, ErrorKind::ParseError(_)));
    let err = extract_aes_key("loginVue.loginForm.aesKey = unquoted").unwrap_err();
    assert!(matches!(err, ErrorKind::ParseError(_)));
    let err = extract_aes_key("loginVue.loginForm.aesKey = \"unterminated").unwrap_err();
    assert!(matches!(err, ErrorKind::ParseError(_)));
}

#[test]
fn decode_captcha_image_takes_the_data_url_payload() {
    let image = decode_captcha_image("data:image/png;base64,aGVsbG8=").unwrap();
    assert_eq!(image, b"hello");
}

#[test]
fn decode_captcha_image_stops_at_a_second_comma() {
    let image = decode_captcha_image("head,aGVsbG8=,tail").unwrap();
    assert_eq!(image, b"hello");
}

#[test]
fn decode_captcha_image_rejects_text_without_a_comma() {
    let err = decode_captcha_image("aGVsbG8=").unwrap_err();
    assert!(matches!(err, ErrorKind::ParseError(_)));
}

#[test]
fn decode_captcha_image_rejects_a_payload_that_is_not_base64() {
    let err = decode_captcha_image("data:image/png;base64,!!!").unwrap_err();
    assert!(matches!(err, ErrorKind::ParseError(_)));
}
