//! Webhook signatures: HMAC-SHA256 over the delivered body, as lower-case hex.

use hmac::{Hmac, Mac};
use sha2::Sha256;
use vstd::prelude::*;
use vstd::string::StringSliceAdditionalSpecFns;
use vstd::utf8::encode_utf8;

verus! {

/// The HMAC-SHA256 tag of `message` under `key`.
pub uninterp spec fn hmac_sha256(key: Seq<u8>, message: Seq<u8>) -> Seq<u8>;

/// The lower-case hexadecimal digit for a value below sixteen.
pub open spec fn hex_digit(n: int) -> char {
    seq!['0', '1', '2', '3', '4', '5', '6', '7', '8', '9', 'a', 'b', 'c', 'd', 'e', 'f'][n]
}

/// Two lower-case hexadecimal digits per byte, high nibble first.
pub open spec fn hex_text(bytes: Seq<u8>) -> Seq<char> {
    Seq::new(
        2 * bytes.len(),
        |i: int|
            if i % 2 == 0 {
                hex_digit(bytes[i / 2] as int / 16)
            } else {
                hex_digit(bytes[i / 2] as int % 16)
            },
    )
}

/// The signature of a body under a secret: the hex text of the HMAC-SHA256 tag
/// computed over the UTF-8 bytes of both.
pub open spec fn signature_of(secret: Seq<char>, body: Seq<char>) -> Seq<char> {
    hex_text(hmac_sha256(encode_utf8(secret), encode_utf8(body)))
}

/// Computes a tag with `hmac::Hmac<sha2::Sha256>`: keyed by `key` (any length
/// is accepted), fed `message` once, then finalized. The contract names the
/// tag and claims only that SHA-256 tags are 32 bytes long.
#[verifier::external_body]
fn hmac_sha256_tag(key: &[u8], message: &[u8]) -> (tag: Vec<u8>)
    ensures
        tag@ == hmac_sha256(key@, message@),
        tag@.len() == 32,
{
    let mut mac = <Hmac<Sha256>>::new_from_slice(key).expect("hmac key");
    mac.update(message);
    mac.finalize().into_bytes().to_vec()
}

/// Calls `hex::encode`, which writes each byte as two lower-case hex digits.
#[verifier::external_body]
fn hex_encode(bytes: &[u8]) -> (text: String)
    ensures
        text@ == hex_text(bytes@),
{
    hex::encode(bytes)
}

/// Signs `body` with `secret`.
///
/// The same secret and body always give the same signature, which is 64
/// hexadecimal digits long.
pub fn hmac_hex(secret: &str, body: &str) -> (sig: String)
    ensures
        sig@ == signature_of(secret@, body@),
        sig@.len() == 64,
{
    let tag = hmac_sha256_tag(secret.as_bytes(), body.as_bytes());
    hex_encode(tag.as_slice())
}

} // verus!
