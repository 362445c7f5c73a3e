//! The tenant's signing secret, read from the record store's answer.

use crate::outcome::is_success_status;
use vstd::prelude::*;

verus! {

/// The error of `serde_json`; nothing is read from it here.
#[verifier::external_type_specification]
#[verifier::external_body]
pub struct ExJsonError(serde_json::Error);

/// The field of the record that holds the signing secret.
pub const SECRET_FIELD: &'static str = "hmac_secret";

/// What `serde_json` reads in `text` under `field`: `None` where the text is
/// not JSON; else the string found there, if the text is an object that has
/// the field and holds a string in it.
pub uninterp spec fn json_string_field(text: Seq<char>, field: Seq<char>) -> Option<
    Option<Seq<char>>,
>;

/// The text of a field read, `None` for a failed read.
pub open spec fn field_view(read: Result<Option<String>, serde_json::Error>) -> Option<
    Option<Seq<char>>,
> {
    match read {
        Ok(Some(s)) => Some(Some(s@)),
        Ok(None) => Some(None),
        Err(_) => None,
    }
}

/// Calls `serde_json::from_str` for a `serde_json::Value` and, on the value,
/// `get` and `as_str`. Trusted: the result is what `json_string_field`
/// names for the two texts, an error standing for text that is not JSON.
#[verifier::external_body]
fn read_string_field(text: &str, field: &str) -> (read: Result<Option<String>, serde_json::Error>)
    ensures
        field_view(read) == json_string_field(text@, field@),
{
    let value: serde_json::Value = serde_json::from_str(text)?;
    Ok(value.get(field).and_then(|v| v.as_str()).map(|s| s.to_string()))
}

/// The secret that an answer of the record store gives: the string in the
/// secret field of a successful answer. An answer that reports no success,
/// is not JSON, or holds no string there gives none.
pub open spec fn spec_secret(status: u16, field: Option<Option<Seq<char>>>) -> Option<Seq<char>> {
    if !is_success_status(status) {
        None
    } else {
        match field {
            Some(Some(s)) => Some(s),
            _ => None,
        }
    }
}

/// The text of a secret, if any.
pub open spec fn secret_view(secret: Option<String>) -> Option<Seq<char>> {
    match secret {
        Some(s) => Some(s@),
        None => None,
    }
}

/// Decides on the secret from the status of the store's answer and from
/// what was read in its body.
pub fn secret_of(status: u16, read: Result<Option<String>, serde_json::Error>) -> (secret: Option<
    String,
>)
    ensures
        secret_view(secret) == spec_secret(status, field_view(read)),
{
    if !(200 <= status && status <= 299) {
        return None;
    }
    match read {
        Ok(Some(s)) => Some(s),
        Ok(None) => None,
        Err(_) => None,
    }
}

/// Reads the tenant's signing secret from the store's answer to the lookup.
pub fn secret_from_response(status: u16, body: &str) -> (secret: Option<String>)
    ensures
        secret_view(secret) == spec_secret(status, json_string_field(body@, SECRET_FIELD@)),
{
    if !(200 <= status && status <= 299) {
        return None;
    }
    secret_of(status, read_string_field(body, SECRET_FIELD))
}

} // verus!
