//! Thumbprints, wide strings and C strings.

use wrest::abi::cert::{allows_client_auth, cert_name, cert_sha1, cstr_eq, hex_thumbprint};
use wrest::abi::cert::{
    has_associated_key, is_time_valid, missing_certificate, name_buffer, usage_buffer,
    StoreLocation,
};
use wrest::abi::wide::{from_utf16_lossy, to_wide};
use wrest::error::Error;

#[test]
fn hex_thumbprint_formats_lowercase_fixed_width() {
    let mut sha1 = [0u8; 20];
    sha1[0] = 0x0a;
    sha1[19] = 0xff;
    let hex = hex_thumbprint(&sha1);
    assert_eq!(hex.len(), 40, "SHA-1 is always 40 hex chars");
    assert!(hex.starts_with("0a"), "leading zero must be kept: {hex}");
    assert!(hex.ends_with("ff"), "got {hex}");
}

#[test]
fn hex_thumbprint_writes_every_byte_as_two_digits() {
    for byte in 0..=255u8 {
        let digits = format!("{byte:02x}");
        assert_eq!(hex_thumbprint(&[byte; 20]), digits.repeat(20));
    }
}

#[test]
fn wide_strings_are_terminated_utf16() {
    assert_eq!(to_wide(""), vec![0]);
    assert_eq!(to_wide("MY"), vec![0x4d, 0x59, 0]);
    assert_eq!(to_wide("\u{1d11e}\u{ffff}"), vec![0xd834, 0xdd1e, 0xffff, 0]);
    for text in ["ROOT", "Gr\u{fc}\u{df}e", "a\u{10000}b\u{10ffff}", "nul\0inside"] {
        let mut expected: Vec<u16> = text.encode_utf16().collect();
        expected.push(0);
        assert_eq!(to_wide(text), expected);
    }
}

#[test]
fn decoding_undoes_encoding_and_replaces_lone_surrogates() {
    for text in ["", "MY", "Gr\u{fc}\u{df}e", "a\u{10000}b\u{10ffff}\u{e000}\u{d7ff}"] {
        let wide = to_wide(text);
        assert_eq!(from_utf16_lossy(&wide[..wide.len() - 1]), text);
    }
    let broken = [0xd834u16, 0xdd1e, 0x6d, 0xdd1e, 0x69, 0xd834, 0xd834, 0xdd1e, 0xd800];
    assert_eq!(
        from_utf16_lossy(&broken),
        "\u{1d11e}m\u{fffd}i\u{fffd}\u{1d11e}\u{fffd}"
    );
    assert_eq!(from_utf16_lossy(&broken), String::from_utf16_lossy(&broken));
}

#[test]
fn decoding_agrees_with_the_standard_library() {
    let interesting = [0u16, 0x41, 0xd7ff, 0xd800, 0xdbff, 0xdc00, 0xdfff, 0xe000, 0xffff];
    for a in interesting {
        for b in interesting {
            for c in interesting {
                let units = [a, b, c];
                assert_eq!(from_utf16_lossy(&units), String::from_utf16_lossy(&units));
            }
        }
    }
}

#[test]
fn c_strings_end_at_their_terminator() {
    assert!(cstr_eq(b"\0", b"\0"));
    assert!(cstr_eq(b"abc\0", b"abc\0"));
    assert!(cstr_eq(b"abc\0xyz", b"abc\0"), "what follows is no part of it");
    assert!(!cstr_eq(b"abc\0", b"abd\0"));
    assert!(!cstr_eq(b"ab\0", b"abc\0"), "a prefix is another string");
    assert!(!cstr_eq(b"abc\0", b"ab\0"));
}

#[test]
fn client_auth_is_recognised_among_usages() {
    let client = Some(b"1.3.6.1.5.5.7.3.2\0".to_vec());
    let server = Some(b"1.3.6.1.5.5.7.3.1\0".to_vec());
    assert!(allows_client_auth(1, &vec![]), "no usage is every usage");
    assert!(allows_client_auth(1, &vec![client.clone()]));
    assert!(allows_client_auth(1, &vec![server.clone(), None, client.clone()]));
    assert!(!allows_client_auth(1, &vec![server.clone()]));
    assert!(!allows_client_auth(1, &vec![None]), "a null usage is a usage");
    assert!(!allows_client_auth(0, &vec![]), "the read failed");
    assert!(!allows_client_auth(0, &vec![client]));
    assert_eq!(usage_buffer(1, 24), Some(24));
    assert_eq!(usage_buffer(0, 24), None);
    assert_eq!(usage_buffer(1, 0), None);
}

#[test]
fn single_answers_are_read_as_crypt32_means_them() {
    assert!(has_associated_key(1));
    assert!(!has_associated_key(0));
    assert!(is_time_valid(0));
    assert!(!is_time_valid(-1), "not valid yet");
    assert!(!is_time_valid(1), "not valid any more");
    assert_eq!(cert_sha1(1, 20, [7; 20]), Some([7; 20]));
    assert_eq!(cert_sha1(0, 20, [7; 20]), None);
    assert_eq!(cert_sha1(1, 19, [7; 20]), None);
}

#[test]
fn names_are_what_stands_before_the_terminator() {
    assert_eq!(name_buffer(0), None);
    assert_eq!(name_buffer(1), None, "the terminator alone is no name");
    assert_eq!(name_buffer(2), Some(2));
    let units = to_wide("client");
    assert_eq!(cert_name(7, &units), "client");
    assert_eq!(cert_name(1, &units), "");
    assert_eq!(cert_name(0, &units), "", "nothing was written");
    assert_eq!(cert_name(3, &vec![0xd800, 0x41, 0]), "\u{fffd}A");
}

#[test]
fn messages_name_the_thumbprint_and_the_store() {
    let hex = "ab".repeat(20);
    assert_eq!(
        missing_certificate(StoreLocation::CurrentUser, "MY", &[0xab; 20]),
        Error::Builder(format!(
            "no certificate with SHA-1 thumbprint {hex} in CurrentUser\\MY"
        ))
    );
    assert_eq!(
        missing_certificate(StoreLocation::LocalMachine, "ROOT", &[0xab; 20]),
        Error::Builder(format!(
            "no certificate with SHA-1 thumbprint {hex} in LocalMachine\\ROOT"
        ))
    );
}
