//! Declarations and trusted wrappers for the outside crates.
//!
//! The library leans on reqwest for the HTTP transport handle and on
//! serde_json for JSON parsing.  Verus sees those crates only through
//! the declarations and the contracts below; everything else in the
//! library is proved against them.

use vstd::prelude::*;

verus! {

/// Verus-visible declaration of reqwest's asynchronous HTTP client handle.
#[verifier::external_type_specification]
#[verifier::external_body]
pub struct ExClient(reqwest::Client);

/// Verus-visible declaration of reqwest's error type.
#[verifier::external_type_specification]
#[verifier::external_body]
pub struct ExReqwestError(reqwest::Error);

/// Verus-visible declaration of serde_json's error type.
#[verifier::external_type_specification]
#[verifier::external_body]
pub struct ExJsonError(serde_json::Error);

/// Verus-visible declaration of serde_json's untyped JSON document.
#[verifier::external_type_specification]
#[verifier::external_body]
pub struct ExJsonValue(serde_json::Value);

/// Whether serde_json accepts `s` as a JSON document.  Parsing is a
/// function of the input text alone, so acceptance can be given a name,
/// even though spelling out the JSON grammar here would prove nothing.
pub uninterp spec fn json_parses(s: Seq<char>) -> bool;

/// Relies on reqwest::Client::new: builds a client handle with the
/// default configuration.  The handle is opaque to the library; it is
/// stored at construction and handed to the I/O layer unchanged.
/// reqwest documents that construction panics only when the machine's
/// TLS backend or resolver configuration cannot be initialized; no
/// input of this library reaches that decision.
#[verifier::external_body]
pub(crate) fn new_http_client() -> reqwest::Client {
    reqwest::Client::new()
}

/// Relies on serde_json::from_str::<Value>: returns the parsed document
/// exactly when the input is acceptable JSON, and an error otherwise.
/// An empty input holds no JSON value, so it is always rejected.
#[verifier::external_body]
pub(crate) fn json_parse(s: &str) -> (r: Result<serde_json::Value, serde_json::Error>)
    ensures
        r is Ok <==> json_parses(s@),
        s@.len() == 0 ==> r is Err,
{
    serde_json::from_str(s)
}

/// The five block fields that serde_json reads out of the text `s`,
/// in the order slot, blockhash, parent_slot, block_time, height:
/// for each, the field's value when `s` parses to a JSON object that
/// holds it with the right type, and None otherwise.  Each read is a
/// function of the text alone, so the results can be given one name;
/// the name is meaningful only where `json_parses(s)` holds, and no
/// contract applies it elsewhere.
pub uninterp spec fn block_fields_of(s: Seq<char>) -> (
    Option<u64>,
    Option<Seq<char>>,
    Option<u64>,
    Option<i64>,
    Option<u64>,
);

/// Relies on serde_json::from_str::<Value> and on Value::get, as_u64,
/// as_i64 and as_str: parses the text and reads the five block fields
/// out of it.  Fails exactly when the text is not acceptable JSON;
/// each field read yields Some exactly for a present field of the
/// right type (an unsigned integer, a string, an unsigned integer, a
/// signed integer, an unsigned integer, in field order).
#[verifier::external_body]
pub(crate) fn json_block_fields(s: &str) -> (r: Result<
    (Option<u64>, Option<String>, Option<u64>, Option<i64>, Option<u64>),
    serde_json::Error,
>)
    ensures
        r is Ok <==> json_parses(s@),
        r is Ok ==> ({
            let f = block_fields_of(s@);
            &&& r->Ok_0.0 == f.0
            &&& (r->Ok_0.1 is Some <==> f.1 is Some)
            &&& (r->Ok_0.1 is Some ==> r->Ok_0.1->0@ == f.1->0)
            &&& r->Ok_0.2 == f.2
            &&& r->Ok_0.3 == f.3
            &&& r->Ok_0.4 == f.4
        }),
        s@.len() == 0 ==> r is Err,
{
    let v: serde_json::Value = serde_json::from_str(s)?;
    Ok((
        v.get("slot").and_then(|x| x.as_u64()),
        v.get("blockhash").and_then(|x| x.as_str()).map(|x| x.to_owned()),
        v.get("parent_slot").and_then(|x| x.as_u64()),
        v.get("block_time").and_then(|x| x.as_i64()),
        v.get("height").and_then(|x| x.as_u64()),
    ))
}

} // verus!
