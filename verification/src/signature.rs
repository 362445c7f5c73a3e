//! Request signing: an HMAC-SHA-256 tag over the request body, keyed by the
//! tenant's secret and written as lower-case hexadecimal.

use hmac::{Hmac, Mac};
use sha2::Sha256;
use vstd::prelude::*;
use vstd::string::StringExecFns;
use vstd::utf8::encode_utf8;

verus! {

/// The HMAC-SHA-256 tag of `message` under `key`, as the crates `hmac` and
/// `sha2` compute it: a function of the two byte strings alone.
pub uninterp spec fn hmac_sha256(key: Seq<u8>, message: Seq<u8>) -> Seq<u8>;

/// The sixteen lower-case hexadecimal digits.
pub open spec fn hex_digits() -> Seq<char> {
    seq!['0', '1', '2', '3', '4', '5', '6', '7', '8', '9', 'a', 'b', 'c', 'd', 'e', 'f']
}

/// Two lower-case hexadecimal digits for each byte, the high half first.
pub open spec fn hex_lower(data: Seq<u8>) -> Seq<char> {
    Seq::new(
        2 * data.len(),
        |i: int|
            if i % 2 == 0 {
                hex_digits()[data[i / 2] as int / 16]
            } else {
                hex_digits()[data[i / 2] as int % 16]
            },
    )
}

/// The signature sent with a request whose body is `payload`, for a tenant
/// whose secret is `secret`.
pub open spec fn signature_of(secret: Seq<char>, payload: Seq<char>) -> Seq<char> {
    "sha256="@ + hex_lower(hmac_sha256(encode_utf8(secret), encode_utf8(payload)))
}

/// Calls `Hmac::<Sha256>::new_from_slice`, `update` and `finalize` of the
/// crate `hmac`. Trusted: the bytes returned are the tag that the name
/// `hmac_sha256` stands for. HMAC takes a key of any length, so the
/// construction does not fail.
#[verifier::external_body]
fn compute_hmac_sha256(key: &[u8], message: &[u8]) -> (tag: Vec<u8>)
    ensures
        tag@ == hmac_sha256(key@, message@),
{
    let mut mac = <Hmac<Sha256> as Mac>::new_from_slice(key).unwrap();
    mac.update(message);
    mac.finalize().into_bytes().to_vec()
}

/// Calls `hex::encode`. Trusted: the text holds two lower-case hexadecimal
/// digits for each byte of `data`, in order.
#[verifier::external_body]
fn hex_encode(data: &[u8]) -> (text: String)
    ensures
        text@ == hex_lower(data@),
{
    hex::encode(data)
}

/// Signs `payload` with `secret`: `sha256=` followed by the hexadecimal
/// HMAC-SHA-256 tag of the payload's bytes.
pub fn sign_payload(secret: &str, payload: &str) -> (signature: String)
    ensures
        signature@ == signature_of(secret@, payload@),
{
    let tag = compute_hmac_sha256(secret.as_bytes(), payload.as_bytes());
    let digits = hex_encode(tag.as_slice());
    String::from_str("sha256=").concat(digits.as_str())
}

} // verus!
