use hmac::Mac;

use newsletter::config::HmacSecret;
use newsletter::hexcode::{hex_decode, hex_encode};
use newsletter::login::QueryParams;
use newsletter::signing::{sign_error_message, verify_error_message};

#[test]
fn hex_encodes_lowercase_two_digits_per_byte() {
    assert_eq!(hex_encode(&[0xbe, 0xef, 0x01]), "beef01");
    assert_eq!(hex_encode(&[]), "");
}

#[test]
fn hex_decode_accepts_both_cases() {
    assert_eq!(hex_decode(&"BEef01".to_string()), Some(vec![0xbe, 0xef, 0x01]));
    assert_eq!(hex_decode(&"".to_string()), Some(vec![]));
}

#[test]
fn hex_decode_rejects_odd_length_and_stray_characters() {
    assert_eq!(hex_decode(&"abc".to_string()), None);
    assert_eq!(hex_decode(&"zz".to_string()), None);
}

#[test]
fn signed_message_verifies_and_query_is_percent_encoded() {
    let secret = HmacSecret("super-secret".to_string());
    let (query, tag) = sign_error_message("Authentication failed.", &secret);

    assert_eq!(query, "error=Authentication%20failed.");
    assert!(verify_error_message("Authentication failed.", &tag, &secret));
}

#[test]
fn tag_matches_an_independent_hmac_computation() {
    let secret = HmacSecret("super-secret".to_string());
    let (query, tag) = sign_error_message("Authentication failed.", &secret);

    let mut mac =
        <hmac::Hmac<sha2::Sha256> as hmac::KeyInit>::new_from_slice(b"super-secret").unwrap();
    mac.update(query.as_bytes());
    let expected = mac.finalize().into_bytes();

    assert_eq!(tag, hex_encode(expected.as_slice()));
    assert_eq!(tag.len(), 64);
}

#[test]
fn flipping_a_tag_digit_fails_verification() {
    let secret = HmacSecret("super-secret".to_string());
    let (_, tag) = sign_error_message("Authentication failed.", &secret);

    let first = tag.chars().next().unwrap();
    let flipped = if first == '0' { '1' } else { '0' };
    let tampered: String = std::iter::once(flipped).chain(tag.chars().skip(1)).collect();

    assert!(!verify_error_message("Authentication failed.", &tampered, &secret));
}

#[test]
fn flipping_a_message_character_fails_verification() {
    let secret = HmacSecret("super-secret".to_string());
    let (_, tag) = sign_error_message("Authentication failed.", &secret);

    assert!(!verify_error_message("Authentication failed!", &tag, &secret));
    assert!(!verify_error_message("authentication failed.", &tag, &secret));
}

#[test]
fn malformed_hex_tag_fails_verification() {
    let secret = HmacSecret("super-secret".to_string());

    assert!(!verify_error_message("Authentication failed.", &"abc".to_string(), &secret));
    assert!(!verify_error_message("Authentication failed.", &"zz".to_string(), &secret));
    assert!(!verify_error_message("Authentication failed.", &"".to_string(), &secret));
}

#[test]
fn wrong_secret_fails_verification() {
    let secret = HmacSecret("super-secret".to_string());
    let (_, tag) = sign_error_message("Authentication failed.", &secret);

    let other = HmacSecret("other-secret".to_string());
    assert!(!verify_error_message("Authentication failed.", &tag, &other));
}

#[test]
fn query_params_verify_returns_the_exact_message() {
    let secret = HmacSecret("super-secret".to_string());
    let (_, tag) = sign_error_message("Authentication failed.", &secret);

    let params = QueryParams { error: "Authentication failed.".to_string(), tag };
    assert_eq!(params.verify(&secret).unwrap(), "Authentication failed.");

    let tampered = QueryParams {
        error: "Authentication failed.".to_string(),
        tag: "00".repeat(32),
    };
    assert!(tampered.verify(&secret).is_err());
}
