//! Signing of outgoing webhook payloads.

use hmac::{Hmac, Mac};
use sha2::Sha256;
use vstd::prelude::*;
use vstd::string::StringSliceAdditionalSpecFns;

verus! {

/// The HMAC-SHA256 authentication code of a message under a key.
pub uninterp spec fn hmac_sha256(key: Seq<u8>, message: Seq<u8>) -> Seq<u8>;

/// The lower-case hexadecimal digit for a value from 0 to 15.
pub open spec fn hex_char(n: int) -> char {
    "0123456789abcdef"@[n]
}

/// Bytes written as lower-case hexadecimal text: two digits for each byte,
/// the high half first.
pub open spec fn hex_lower(bytes: Seq<u8>) -> Seq<char> {
    Seq::new(
        2 * bytes.len(),
        |i: int|
            if i % 2 == 0 {
                hex_char(bytes[i / 2] as int / 16)
            } else {
                hex_char(bytes[i / 2] as int % 16)
            },
    )
}

/// The code that `hmac::Hmac<sha2::Sha256>` computes: `new_from_slice` with
/// the key, which takes a key of any length, then `update` with the whole
/// message, then `finalize`. The code is a function of key and message
/// alone; it is named here, not spelled out.
#[verifier::external_body]
fn hmac_sha256_tag(key: &[u8], message: &[u8]) -> (tag: Vec<u8>)
    ensures
        tag@ == hmac_sha256(key@, message@),
{
    let mut mac = Hmac::<Sha256>::new_from_slice(key).expect("HMAC can take key of any size");
    mac.update(message);
    mac.finalize().into_bytes().to_vec()
}

/// `hex::encode`: each byte becomes two characters of `0123456789abcdef`,
/// the one for its high four bits and the one for its low four bits.
#[verifier::external_body]
fn hex_encode(bytes: &Vec<u8>) -> (text: String)
    ensures
        text@ == hex_lower(bytes@),
{
    hex::encode(bytes)
}

/// An authentication code as it is written in a header.
pub fn signature_text(tag: &Vec<u8>) -> (text: String)
    ensures
        text@ == hex_lower(tag@),
        text@.len() == 2 * tag@.len(),
{
    hex_encode(tag)
}

/// The signature of a payload under a webhook's secret: the HMAC-SHA256
/// code of the payload's bytes under the secret's bytes, in lower-case
/// hexadecimal.
pub fn generate_signature(secret: &str, payload: &str) -> (signature: String)
    ensures
        signature@ == hex_lower(hmac_sha256(secret.spec_bytes(), payload.spec_bytes())),
{
    let tag = hmac_sha256_tag(secret.as_bytes(), payload.as_bytes());
    signature_text(&tag)
}

/// The signature header of a delivery: present exactly when the webhook
/// has a secret.
pub fn signature_header(secret: Option<&str>, payload: &str) -> (header: Option<String>)
    ensures
        match header {
            Some(h) => secret matches Some(k) && h@ == hex_lower(
                hmac_sha256(k.spec_bytes(), payload.spec_bytes()),
            ),
            None => secret is None,
        },
{
    match secret {
        Some(k) => Some(generate_signature(k, payload)),
        None => None,
    }
}

/// Hexadecimal text has two characters for each byte, and each of them is
/// a digit or one of `a` to `f`.
pub proof fn hex_text_is_lower_hex(bytes: Seq<u8>, i: int)
    requires
        0 <= i < 2 * bytes.len(),
    ensures
        hex_lower(bytes).len() == 2 * bytes.len(),
        ('0' <= hex_lower(bytes)[i] <= '9') || ('a' <= hex_lower(bytes)[i] <= 'f'),
{
    reveal_strlit("0123456789abcdef");
    let b = bytes[i / 2] as int;
    let n = if i % 2 == 0 {
        b / 16
    } else {
        b % 16
    };
    assert(0 <= n < 16);
    assert(hex_lower(bytes)[i] == hex_char(n));
}

} // verus!
