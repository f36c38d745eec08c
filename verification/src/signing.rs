//! The tamper-evident redirect message: a keyed tag over the exact
//! percent-encoded query-string form of a message, hex-encoded; and its
//! constant-time verification.

use vstd::prelude::*;
use vstd::utf8::encode_utf8;

use crate::config::HmacSecret;
use crate::hexcode::{
    hex_decode, hex_decode_of, hex_encode, hex_of, lemma_decode_pins_digits, lemma_hex_round_trip,
    lower_hex,
};

verus! {

/// The HMAC-SHA256 tag of a message under a key: a function of the two
/// byte strings alone.
pub uninterp spec fn hmac_sha256_of(key: Seq<u8>, msg: Seq<u8>) -> Seq<u8>;

/// Relies on hmac's `Hmac<Sha256>`: `new_from_slice` accepts a key of any
/// length, `update` feeds the message, and `finalize` yields the 32-byte
/// tag, a function of key and message alone.
#[verifier::external_body]
fn hmac_sha256(key: &[u8], msg: &[u8]) -> (r: Vec<u8>)
    ensures
        r@ == hmac_sha256_of(key@, msg@),
        r@.len() == 32,
{
    let mut mac = <hmac::Hmac<sha2::Sha256> as hmac::KeyInit>::new_from_slice(key).expect(
        "HMAC accepts keys of any length",
    );
    hmac::Mac::update(&mut mac, msg);
    hmac::Mac::finalize(mac).into_bytes().to_vec()
}

/// Relies on digest's `Mac::verify_slice` for `Hmac<Sha256>`: it accepts
/// exactly a tag equal to the computed 32-byte one, compared in constant
/// time.
#[verifier::external_body]
fn hmac_sha256_verify(key: &[u8], msg: &[u8], tag: &[u8]) -> (r: bool)
    ensures
        r == (tag@ == hmac_sha256_of(key@, msg@)),
{
    let mut mac = <hmac::Hmac<sha2::Sha256> as hmac::KeyInit>::new_from_slice(key).expect(
        "HMAC accepts keys of any length",
    );
    hmac::Mac::update(&mut mac, msg);
    match hmac::Mac::verify_slice(mac, tag) {
        Ok(()) => true,
        Err(_) => false,
    }
}

/// What urlencoding::encode returns for a string: a function of its
/// characters alone.
pub uninterp spec fn urlencode_of(s: Seq<char>) -> Seq<char>;

/// Relies on urlencoding::encode: percent-encodes every byte except the
/// alphanumerics and `-` `_` `.` `~`, a pure function of the input
/// string.
#[verifier::external_body]
fn urlencode(s: &str) -> (r: String)
    ensures
        r@ == urlencode_of(s@),
{
    urlencoding::encode(s).into_owned()
}

/// The exact query-string form of a carried message, the byte sequence
/// the tag is computed over.
pub open spec fn error_query(msg: Seq<char>) -> Seq<char> {
    "error="@ + urlencode_of(msg)
}

/// The hex tag issued for a message under a secret.
pub open spec fn message_tag(secret: Seq<char>, msg: Seq<char>) -> Seq<char> {
    hex_of(hmac_sha256_of(encode_utf8(secret), encode_utf8(error_query(msg))))
}

/// When verification accepts a (message, tag) pair under a secret.
pub open spec fn tag_accepted(secret: Seq<char>, msg: Seq<char>, tag: Seq<char>) -> bool {
    hex_decode_of(tag) matches Some(b) && b == hmac_sha256_of(
        encode_utf8(secret),
        encode_utf8(error_query(msg)),
    )
}

/// The query string `error=<url-encoded message>` as the redirect carries
/// it.
pub fn error_query_string(message: &str) -> (r: String)
    ensures
        r@ == error_query(message@),
{
    let mut q = "error=".to_owned();
    q.append(urlencode(message).as_str());
    q
}

/// Sign a redirect message: the tag is the HMAC-SHA256 of the exact
/// query-string form of the message under the secret, hex-encoded.
pub fn sign_error_message(message: &str, secret: &HmacSecret) -> (r: (String, String))
    ensures
        r.0@ == error_query(message@),
        r.1@ == message_tag(secret.0@, message@),
{
    let q = error_query_string(message);
    let tag = hmac_sha256(secret.0.as_str().as_bytes(), q.as_str().as_bytes());
    let tag_hex = hex_encode(tag.as_slice());
    (q, tag_hex)
}

/// Verify a redirect message against a hex tag, in constant time; any
/// malformed hex or mismatched tag is rejected.
pub fn verify_error_message(message: &str, tag: &String, secret: &HmacSecret) -> (r: bool)
    ensures
        r == tag_accepted(secret.0@, message@, tag@),
{
    let tag_bytes = match hex_decode(tag) {
        Some(b) => b,
        None => {
            return false;
        },
    };
    let q = error_query_string(message);
    hmac_sha256_verify(
        secret.0.as_str().as_bytes(),
        q.as_str().as_bytes(),
        tag_bytes.as_slice(),
    )
}

/// A signed message verifies against the exact tag issued for it.
pub proof fn lemma_sign_then_verify(secret: Seq<char>, msg: Seq<char>)
    ensures
        tag_accepted(secret, msg, message_tag(secret, msg)),
{
    lemma_hex_round_trip(hmac_sha256_of(encode_utf8(secret), encode_utf8(error_query(msg))));
}

/// Acceptance pins the tag: an accepted tag is the issued one, up to the
/// case of its hex digits, so a tag that differs from the issued one in
/// any digit's value is rejected.
pub proof fn lemma_accepted_tag_is_issued(secret: Seq<char>, msg: Seq<char>, tag: Seq<char>)
    requires
        tag_accepted(secret, msg, tag),
    ensures
        lower_hex(tag) == message_tag(secret, msg),
{
    let mac = hmac_sha256_of(encode_utf8(secret), encode_utf8(error_query(msg)));
    lemma_decode_pins_digits(tag, mac);
}

} // verus!
