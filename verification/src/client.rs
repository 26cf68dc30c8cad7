//! The historical-data client: request URLs and response decoding.
//!
//! `HistoricalClient` owns the base URL and the HTTP transport handle,
//! both immutable after construction.  Its methods build the exact URL
//! for each endpoint; the free functions decode the response bodies.
//! The asynchronous GET itself is I/O and is performed by the caller,
//! who passes the response body back in as text.

use vstd::prelude::*;
use crate::decimal::{dec_str, push_u64};
use crate::outside::{
    block_fields_of, json_block_fields, json_parse, json_parses, new_http_client,
};

verus! {

/// A ledger block as returned by the service, all fields taken
/// directly from the JSON response.
#[derive(Debug, Clone)]
pub struct Block {
    pub slot: u64,
    pub blockhash: String,
    pub parent_slot: u64,
    pub block_time: i64,
    pub height: u64,
}

/// A failed call: the transport failed, the body was not JSON, or the
/// body did not hold the expected shape.  Each variant carries the
/// underlying cause; none is recovered from locally.
pub enum ClientError {
    /// The HTTP transport reported a failure.
    Reqwest(reqwest::Error),
    /// The response body was not acceptable JSON.
    Json(serde_json::Error),
    /// The response body was JSON but a required field was missing or
    /// mistyped; carries the field's name.
    Schema(String),
    /// The service replied with a status outside the 2xx range;
    /// carries the status code.
    Status(u16),
}

/// A client for the historical-data service: a base URL and an HTTP
/// transport handle, both fixed at construction.  Methods take `&self`
/// only, so one instance serves any number of concurrent calls.
pub struct HistoricalClient {
    http: reqwest::Client,
    base: String,
}

impl View for HistoricalClient {
    type V = Seq<char>;

    /// A client is abstractly its base URL.
    closed spec fn view(&self) -> Seq<char> {
        self.base@
    }
}

/// The URL of the block endpoint: `{base}/block/{slot}?commitment={commitment}`.
pub open spec fn spec_block_url(base: Seq<char>, slot: u64, commitment: Seq<char>) -> Seq<char> {
    base + "/block/"@ + dec_str(slot as nat) + "?commitment="@ + commitment
}

/// The URL of the transaction endpoint: `{base}/tx/{signature}?commitment={commitment}`.
pub open spec fn spec_transaction_url(base: Seq<char>, signature: Seq<char>, commitment: Seq<char>) -> Seq<char> {
    base + "/tx/"@ + signature + "?commitment="@ + commitment
}

impl HistoricalClient {
    /// Builds a client over `base` with a default transport handle.
    /// The base URL is stored verbatim; a malformed one surfaces as a
    /// request-time transport error, not here.
    pub fn new(base: String) -> (r: Self)
        ensures
            r@ == base@,
    {
        HistoricalClient { http: new_http_client(), base }
    }

    /// The base URL the client was constructed with.
    pub fn base(&self) -> (r: &str)
        ensures
            r@ == self@,
    {
        self.base.as_str()
    }

    /// The shared HTTP transport handle, for the caller that performs
    /// the GET.  The handle is opaque here and never mutated.
    pub fn http(&self) -> &reqwest::Client {
        &self.http
    }

    /// The exact URL that a block request for `slot` at `commitment`
    /// is sent to.
    pub fn block_url(&self, slot: u64, commitment: &str) -> (r: String)
        ensures
            r@ == spec_block_url(self@, slot, commitment@),
    {
        let mut s: String = self.base.clone();
        s.append("/block/");
        push_u64(&mut s, slot);
        s.append("?commitment=");
        s.append(commitment);
        proof {
            assert(s@ =~= spec_block_url(self@, slot, commitment@));
        }
        s
    }

    /// The exact URL that a transaction request for `signature` at
    /// `commitment` is sent to.
    pub fn transaction_url(&self, signature: &str, commitment: &str) -> (r: String)
        ensures
            r@ == spec_transaction_url(self@, signature@, commitment@),
    {
        let mut s: String = self.base.clone();
        s.append("/tx/");
        s.append(signature);
        s.append("?commitment=");
        s.append(commitment);
        proof {
            assert(s@ =~= spec_transaction_url(self@, signature@, commitment@));
        }
        s
    }
}

/// Assembles a `Block` from its five decoded fields.  Succeeds exactly
/// when every field is present; otherwise reports the first missing
/// field, in the order slot, blockhash, parent_slot, block_time,
/// height.
pub fn block_from_parts(
    slot: Option<u64>,
    blockhash: Option<String>,
    parent_slot: Option<u64>,
    block_time: Option<i64>,
    height: Option<u64>,
) -> (r: Result<Block, ClientError>)
    ensures
        r is Ok <==> (slot is Some && blockhash is Some && parent_slot is Some
            && block_time is Some && height is Some),
        r is Ok ==> r->Ok_0.slot == slot->0 && r->Ok_0.blockhash == blockhash->0
            && r->Ok_0.parent_slot == parent_slot->0 && r->Ok_0.block_time == block_time->0
            && r->Ok_0.height == height->0,
        slot is None ==> (r->Err_0 matches ClientError::Schema(f) && f@ == "slot"@),
        slot is Some && blockhash is None
            ==> (r->Err_0 matches ClientError::Schema(f) && f@ == "blockhash"@),
        slot is Some && blockhash is Some && parent_slot is None
            ==> (r->Err_0 matches ClientError::Schema(f) && f@ == "parent_slot"@),
        slot is Some && blockhash is Some && parent_slot is Some && block_time is None
            ==> (r->Err_0 matches ClientError::Schema(f) && f@ == "block_time"@),
        slot is Some && blockhash is Some && parent_slot is Some && block_time is Some
            && height is None
            ==> (r->Err_0 matches ClientError::Schema(f) && f@ == "height"@),
{
    let slot_v: u64 = match slot {
        Some(v) => v,
        None => {
            return Err(ClientError::Schema("slot".to_owned()));
        },
    };
    let blockhash_v: String = match blockhash {
        Some(v) => v,
        None => {
            return Err(ClientError::Schema("blockhash".to_owned()));
        },
    };
    let parent_slot_v: u64 = match parent_slot {
        Some(v) => v,
        None => {
            return Err(ClientError::Schema("parent_slot".to_owned()));
        },
    };
    let block_time_v: i64 = match block_time {
        Some(v) => v,
        None => {
            return Err(ClientError::Schema("block_time".to_owned()));
        },
    };
    let height_v: u64 = match height {
        Some(v) => v,
        None => {
            return Err(ClientError::Schema("height".to_owned()));
        },
    };
    Ok(Block {
        slot: slot_v,
        blockhash: blockhash_v,
        parent_slot: parent_slot_v,
        block_time: block_time_v,
        height: height_v,
    })
}

/// Whether the text's JSON holds all five block fields with the right
/// types.
pub open spec fn block_has_fields(s: Seq<char>) -> bool {
    let f = block_fields_of(s);
    f.0 is Some && f.1 is Some && f.2 is Some && f.3 is Some && f.4 is Some
}

/// Decodes a block-endpoint response body into a `Block`.  Succeeds
/// exactly when the body is acceptable JSON holding all five fields,
/// and then returns them without loss.  A body that is not acceptable
/// JSON fails with the JSON error; a JSON body that lacks one of the
/// five fields fails with the schema error naming the first missing
/// one, in the order slot, blockhash, parent_slot, block_time, height.
pub fn decode_block(body: &str) -> (r: Result<Block, ClientError>)
    ensures
        r is Ok <==> (json_parses(body@) && block_has_fields(body@)),
        r is Ok ==> ({
            let f = block_fields_of(body@);
            &&& r->Ok_0.slot == f.0->0
            &&& r->Ok_0.blockhash@ == f.1->0
            &&& r->Ok_0.parent_slot == f.2->0
            &&& r->Ok_0.block_time == f.3->0
            &&& r->Ok_0.height == f.4->0
        }),
        !json_parses(body@) ==> (r matches Err(e) && e is Json),
        json_parses(body@) && !block_has_fields(body@) ==> (r matches Err(e) && e is Schema),
        json_parses(body@) && block_fields_of(body@).0 is None
            ==> (r->Err_0 matches ClientError::Schema(f) && f@ == "slot"@),
        json_parses(body@) && block_fields_of(body@).0 is Some && block_fields_of(body@).1 is None
            ==> (r->Err_0 matches ClientError::Schema(f) && f@ == "blockhash"@),
        json_parses(body@) && block_fields_of(body@).0 is Some && block_fields_of(body@).1 is Some
            && block_fields_of(body@).2 is None
            ==> (r->Err_0 matches ClientError::Schema(f) && f@ == "parent_slot"@),
        json_parses(body@) && block_fields_of(body@).0 is Some && block_fields_of(body@).1 is Some
            && block_fields_of(body@).2 is Some && block_fields_of(body@).3 is None
            ==> (r->Err_0 matches ClientError::Schema(f) && f@ == "block_time"@),
        json_parses(body@) && block_fields_of(body@).0 is Some && block_fields_of(body@).1 is Some
            && block_fields_of(body@).2 is Some && block_fields_of(body@).3 is Some
            && block_fields_of(body@).4 is None
            ==> (r->Err_0 matches ClientError::Schema(f) && f@ == "height"@),
        body@.len() == 0 ==> (r matches Err(e) && e is Json),
{
    let parts: (Option<u64>, Option<String>, Option<u64>, Option<i64>, Option<u64>) =
        match json_block_fields(body) {
            Ok(p) => p,
            Err(e) => {
                return Err(ClientError::Json(e));
            },
        };
    block_from_parts(parts.0, parts.1, parts.2, parts.3, parts.4)
}

/// Decodes a block-endpoint reply from its HTTP status and body.  A
/// reply outside the 2xx range fails with the status error before the
/// body is looked at; a 2xx reply decodes exactly as `decode_block`.
pub fn decode_block_response(status: u16, body: &str) -> (r: Result<Block, ClientError>)
    ensures
        r is Ok <==> (200 <= status < 300 && json_parses(body@) && block_has_fields(body@)),
        r is Ok ==> ({
            let f = block_fields_of(body@);
            &&& r->Ok_0.slot == f.0->0
            &&& r->Ok_0.blockhash@ == f.1->0
            &&& r->Ok_0.parent_slot == f.2->0
            &&& r->Ok_0.block_time == f.3->0
            &&& r->Ok_0.height == f.4->0
        }),
        !(200 <= status < 300) ==> (r->Err_0 matches ClientError::Status(sc) && sc == status),
        200 <= status < 300 && !json_parses(body@) ==> (r matches Err(e) && e is Json),
        200 <= status < 300 && json_parses(body@) && !block_has_fields(body@)
            ==> (r matches Err(e) && e is Schema),
{
    if status < 200 || status >= 300 {
        Err(ClientError::Status(status))
    } else {
        decode_block(body)
    }
}

/// Decodes a transaction-endpoint response body into an untyped JSON
/// document, passed through unmodified.  Succeeds exactly when the
/// body is acceptable JSON.
pub fn decode_transaction(body: &str) -> (r: Result<serde_json::Value, ClientError>)
    ensures
        r is Ok <==> json_parses(body@),
        r is Err ==> r->Err_0 is Json,
        body@.len() == 0 ==> r is Err,
{
    match json_parse(body) {
        Ok(v) => Ok(v),
        Err(e) => Err(ClientError::Json(e)),
    }
}

/// Decodes a transaction-endpoint reply from its HTTP status and body.
/// A reply outside the 2xx range fails with the status error before
/// the body is looked at; a 2xx reply decodes exactly as
/// `decode_transaction`.
pub fn decode_transaction_response(status: u16, body: &str) -> (r: Result<
    serde_json::Value,
    ClientError,
>)
    ensures
        r is Ok <==> (200 <= status < 300 && json_parses(body@)),
        !(200 <= status < 300) ==> (r->Err_0 matches ClientError::Status(sc) && sc == status),
        200 <= status < 300 && !json_parses(body@) ==> (r matches Err(e) && e is Json),
{
    if status < 200 || status >= 300 {
        Err(ClientError::Status(status))
    } else {
        decode_transaction(body)
    }
}

} // verus!
