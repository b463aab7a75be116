use bnet_auth_export::codec::{build_otpauth_uri, hex_to_base32_nopad_upper, otpauth_for_secret};
use bnet_auth_export::error::ExportError;

fn hex_of(bytes: &[u8]) -> String {
    let digits = "0123456789abcdef";
    let mut text = String::new();
    for b in bytes {
        text.push_str(&digits[(b >> 4) as usize..(b >> 4) as usize + 1]);
        text.push_str(&digits[(b & 15) as usize..(b & 15) as usize + 1]);
    }
    text
}

#[test]
fn known_secret_converts() {
    assert_eq!(
        hex_to_base32_nopad_upper("48656c6c6f21deadbeef"),
        Ok("JBSWY3DPEHPK3PXP".to_string())
    );
}

#[test]
fn hex_digits_in_either_case_give_the_same_text() {
    let lower = hex_to_base32_nopad_upper("48656c6c6f21deadbeef");
    let upper = hex_to_base32_nopad_upper("48656C6C6F21DEADBEEF");
    let mixed = hex_to_base32_nopad_upper("48656c6C6f21DeAdbEeF");
    assert_eq!(lower, upper);
    assert_eq!(lower, mixed);
}

#[test]
fn whitespace_around_the_secret_is_ignored() {
    assert_eq!(hex_to_base32_nopad_upper("  666f6f\n"), Ok("MZXW6".to_string()));
}

#[test]
fn standard_vectors_without_padding() {
    assert_eq!(hex_to_base32_nopad_upper(""), Ok("".to_string()));
    assert_eq!(hex_to_base32_nopad_upper("66"), Ok("MY".to_string()));
    assert_eq!(hex_to_base32_nopad_upper("666f"), Ok("MZXQ".to_string()));
    assert_eq!(hex_to_base32_nopad_upper("666f6f"), Ok("MZXW6".to_string()));
    assert_eq!(hex_to_base32_nopad_upper("666f6f62"), Ok("MZXW6YQ".to_string()));
    assert_eq!(hex_to_base32_nopad_upper("666f6f6261"), Ok("MZXW6YTB".to_string()));
    assert_eq!(hex_to_base32_nopad_upper("666f6f626172"), Ok("MZXW6YTBOI".to_string()));
}

#[test]
fn extreme_bytes_convert() {
    assert_eq!(hex_to_base32_nopad_upper("00"), Ok("AA".to_string()));
    assert_eq!(hex_to_base32_nopad_upper("ff"), Ok("74".to_string()));
    assert_eq!(hex_to_base32_nopad_upper("ffffffffff"), Ok("77777777".to_string()));
}

#[test]
fn odd_length_is_rejected() {
    assert_eq!(hex_to_base32_nopad_upper("abc"), Err(ExportError::InvalidHex));
    assert_eq!(hex_to_base32_nopad_upper("1"), Err(ExportError::InvalidHex));
}

#[test]
fn other_characters_are_rejected() {
    assert_eq!(hex_to_base32_nopad_upper("zz"), Err(ExportError::InvalidHex));
    assert_eq!(hex_to_base32_nopad_upper("12 34"), Err(ExportError::InvalidHex));
    assert_eq!(hex_to_base32_nopad_upper("0x12"), Err(ExportError::InvalidHex));
    assert_eq!(hex_to_base32_nopad_upper("\u{e9}"), Err(ExportError::InvalidHex));
    assert_eq!(hex_to_base32_nopad_upper("a\u{e9}b"), Err(ExportError::InvalidHex));
}

#[test]
fn decoding_the_text_gives_the_bytes_back() {
    let mut bytes: Vec<u8> = Vec::new();
    for n in 0..40u32 {
        let text = hex_to_base32_nopad_upper(&hex_of(&bytes)).unwrap();
        assert_eq!(text.len(), (8 * bytes.len() + 4) / 5);
        assert!(text.chars().all(|c| c.is_ascii_uppercase() || ('2'..='7').contains(&c)));
        assert_eq!(data_encoding::BASE32_NOPAD.decode(text.as_bytes()).unwrap(), bytes);
        bytes.push((n.wrapping_mul(97).wrapping_add(13) % 256) as u8);
    }
}

#[test]
fn every_single_byte_round_trips() {
    for b in 0..=255u8 {
        let text = hex_to_base32_nopad_upper(&hex_of(&[b])).unwrap();
        assert_eq!(data_encoding::BASE32_NOPAD.decode(text.as_bytes()).unwrap(), vec![b]);
    }
}

#[test]
fn uri_has_the_fixed_template() {
    assert_eq!(
        build_otpauth_uri("1234-5678-9012", "JBSWY3DPEHPK3PXP"),
        "otpauth://totp/Battle.net:1234-5678-9012?secret=JBSWY3DPEHPK3PXP&issuer=Battle.net&digits=8&algorithm=SHA1&period=30"
    );
}

#[test]
fn uri_does_not_escape_the_serial() {
    assert_eq!(
        build_otpauth_uri("a b&c", ""),
        "otpauth://totp/Battle.net:a b&c?secret=&issuer=Battle.net&digits=8&algorithm=SHA1&period=30"
    );
}

#[test]
fn uri_from_a_device_secret() {
    assert_eq!(
        otpauth_for_secret("EU-1", " 48656c6c6f21deadbeef "),
        Ok("otpauth://totp/Battle.net:EU-1?secret=JBSWY3DPEHPK3PXP&issuer=Battle.net&digits=8&algorithm=SHA1&period=30".to_string())
    );
    assert_eq!(otpauth_for_secret("EU-1", "xyz"), Err(ExportError::InvalidHex));
}
