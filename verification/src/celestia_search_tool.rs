//! The block-statistics search tool: builds the query URL for a block height,
//! and turns an HTTP status and response body into either the rendered
//! gas-fee line or one of the two error kinds. Every field of the statistics
//! record is extracted defensively: a missing, wrong-typed or malformed field
//! degrades to its default without affecting any other field.

use vstd::prelude::*;
use crate::digits::{
    dec_str, dec_value, is_u64_numeral, parse_u64, parsed_u64_or_zero, u64_to_string,
    unsigned_part,
};
use crate::json::{get_field, json_doc, json_field, json_str, parse_json, value_as_string};

verus! {

/// The query parameters that the agent injects into the search.
pub struct CelestiaSearchArgs {
    /// The block height at which to query.
    pub height: u64,
}

/// The fields that are received in the search response.
pub struct CelestiaOption {
    pub blobs_count: u64,
    pub blobs_size: u64,
    pub block_time: u64,
    pub bytes_in_block: u64,
    pub commissions: String,
    pub events_count: u64,
    pub fee: String,
    pub fill_rate: String,
    pub gas_limit: u64,
    pub gas_used: u64,
    pub inflation_rate: String,
    pub rewards: String,
    pub square_size: u64,
    pub supply_change: String,
    pub tx_count: u64,
}

/// The possible kinds of errors that may occur while searching: a transport
/// or format failure, and an application-level failure reported by the API.
#[derive(Debug)]
pub enum CelestiaSearchError {
    HttpRequestFailed(String),
    ApiError(String),
}

/// The search tool itself. It holds no state: each call is one independent
/// request/response round trip.
pub struct CelestiaSearchTool;

/// The display text of an error, one fixed prefix per kind.
pub open spec fn spec_error_message(e: CelestiaSearchError) -> Seq<char> {
    match e {
        CelestiaSearchError::HttpRequestFailed(d) => "HTTP request failed: "@ + d@,
        CelestiaSearchError::ApiError(d) => "API error: "@ + d@,
    }
}

impl CelestiaSearchError {
    /// The human-readable text of the error.
    pub fn message(&self) -> (r: String)
        ensures
            r@ == spec_error_message(*self),
    {
        match self {
            CelestiaSearchError::HttpRequestFailed(d) => {
                let mut r = String::from_str("HTTP request failed: ");
                r.append(d.as_str());
                r
            },
            CelestiaSearchError::ApiError(d) => {
                let mut r = String::from_str("API error: ");
                r.append(d.as_str());
                r
            },
        }
    }
}

/// The HTTP statuses in the success range.
pub open spec fn is_success_status(status: u16) -> bool {
    200 <= status && status <= 299
}

/// The detail carried by the error for a status outside the success range:
/// the status code and the raw body text.
pub open spec fn spec_status_error_detail(status: u16, body: Seq<char>) -> Seq<char> {
    "Status: "@ + dec_str(status as int) + ", Response: "@ + body
}

/// A numeric field of the response: the value of the member under `key` when
/// it is a JSON string holding a `u64` numeral, and zero otherwise.
pub open spec fn numeric_field(doc: serde_json::Value, key: Seq<char>) -> u64 {
    match json_field(doc, key) {
        Some(f) => match json_str(f) {
            Some(t) => parsed_u64_or_zero(t),
            None => 0,
        },
        None => 0,
    }
}

/// A decimal-string field of the response: the content of the member under
/// `key` when it is a JSON string, and the text `0` otherwise.
pub open spec fn string_field(doc: serde_json::Value, key: Seq<char>) -> Seq<char> {
    match json_field(doc, key) {
        Some(f) => match json_str(f) {
            Some(t) => t,
            None => "0"@,
        },
        None => "0"@,
    }
}

/// The detail of an application-level error reported inside the body: the
/// `error.message` string, or fixed text when no such string is present.
pub open spec fn api_error_detail(doc: serde_json::Value) -> Seq<char> {
    match json_field(doc, "error"@) {
        Some(e) => match json_field(e, "message"@) {
            Some(m) => match json_str(m) {
                Some(t) => t,
                None => "Unknown error"@,
            },
            None => "Unknown error"@,
        },
        None => Seq::<char>::empty(),
    }
}

/// The line that a successful search renders: the fee field after a fixed
/// prefix with four leading spaces.
pub open spec fn fee_line(doc: serde_json::Value) -> Seq<char> {
    "    The gas fee is: "@ + string_field(doc, "fee"@)
}

/// Extracts one numeric field: the parsed value of the string member under
/// `key`, and zero when the member is missing, not a string, or no numeral.
pub fn extract_u64_field(doc: &serde_json::Value, key: &str) -> (r: u64)
    ensures
        r == numeric_field(*doc, key@),
{
    match get_field(doc, key) {
        Some(f) => match value_as_string(f) {
            Some(t) => match parse_u64(t.as_str()) {
                Some(n) => n,
                None => 0,
            },
            None => 0,
        },
        None => 0,
    }
}

/// Extracts one decimal-string field: the string member under `key`, and the
/// text `0` when the member is missing or not a string.
pub fn extract_string_field(doc: &serde_json::Value, key: &str) -> (r: String)
    ensures
        r@ == string_field(*doc, key@),
{
    match get_field(doc, key) {
        Some(f) => match value_as_string(f) {
            Some(t) => t,
            None => String::from_str("0"),
        },
        None => String::from_str("0"),
    }
}

impl CelestiaOption {
    /// Reads every statistics field out of the parsed response document,
    /// each one independently of all the others.
    pub fn extract(doc: &serde_json::Value) -> (r: CelestiaOption)
        ensures
            r.blobs_count == numeric_field(*doc, "blobs_count"@),
            r.blobs_size == numeric_field(*doc, "blobs_size"@),
            r.block_time == numeric_field(*doc, "block_time"@),
            r.bytes_in_block == numeric_field(*doc, "bytes_in_block"@),
            r.commissions@ == string_field(*doc, "commissions"@),
            r.events_count == numeric_field(*doc, "events_count"@),
            r.fee@ == string_field(*doc, "fee"@),
            r.fill_rate@ == string_field(*doc, "fill_rate"@),
            r.gas_limit == numeric_field(*doc, "gas_limit"@),
            r.gas_used == numeric_field(*doc, "gas_used"@),
            r.inflation_rate@ == string_field(*doc, "inflation_rate"@),
            r.rewards@ == string_field(*doc, "rewards"@),
            r.square_size == numeric_field(*doc, "square_size"@),
            r.supply_change@ == string_field(*doc, "supply_change"@),
            r.tx_count == numeric_field(*doc, "tx_count"@),
    {
        CelestiaOption {
            blobs_count: extract_u64_field(doc, "blobs_count"),
            blobs_size: extract_u64_field(doc, "blobs_size"),
            block_time: extract_u64_field(doc, "block_time"),
            bytes_in_block: extract_u64_field(doc, "bytes_in_block"),
            commissions: extract_string_field(doc, "commissions"),
            events_count: extract_u64_field(doc, "events_count"),
            fee: extract_string_field(doc, "fee"),
            fill_rate: extract_string_field(doc, "fill_rate"),
            gas_limit: extract_u64_field(doc, "gas_limit"),
            gas_used: extract_u64_field(doc, "gas_used"),
            inflation_rate: extract_string_field(doc, "inflation_rate"),
            rewards: extract_string_field(doc, "rewards"),
            square_size: extract_u64_field(doc, "square_size"),
            supply_change: extract_string_field(doc, "supply_change"),
            tx_count: extract_u64_field(doc, "tx_count"),
        }
    }
}

/// A field present as a string-encoded number is extracted as exactly the
/// integer that the numeral denotes.
pub proof fn lemma_numeric_field_exact(
    doc: serde_json::Value,
    key: Seq<char>,
    f: serde_json::Value,
    t: Seq<char>,
)
    requires
        json_field(doc, key) == Some(f),
        json_str(f) == Some(t),
        is_u64_numeral(t),
    ensures
        numeric_field(doc, key) == dec_value(unsigned_part(t)),
{
    crate::digits::lemma_dec_value_non_negative(unsigned_part(t));
}

/// A field that is missing, or present with any value that is not a JSON
/// string, degrades to the documented defaults for both extraction kinds.
pub proof fn lemma_absent_or_wrong_typed_field_defaults(doc: serde_json::Value, key: Seq<char>)
    requires
        json_field(doc, key) matches Some(f) ==> json_str(f) is None,
    ensures
        numeric_field(doc, key) == 0,
        string_field(doc, key) == "0"@,
{
}

/// A string field whose text is no `u64` numeral degrades the numeric
/// extraction to zero.
pub proof fn lemma_malformed_numeral_defaults(
    doc: serde_json::Value,
    key: Seq<char>,
    f: serde_json::Value,
    t: Seq<char>,
)
    requires
        json_field(doc, key) == Some(f),
        json_str(f) == Some(t),
        !is_u64_numeral(t),
    ensures
        numeric_field(doc, key) == 0,
{
}

/// Extraction is independent across fields: two documents that agree on the
/// member under a key agree on everything extracted for that key, whatever
/// they hold elsewhere.
pub proof fn lemma_field_extraction_independent(
    d1: serde_json::Value,
    d2: serde_json::Value,
    key: Seq<char>,
)
    requires
        json_field(d1, key) == json_field(d2, key),
    ensures
        numeric_field(d1, key) == numeric_field(d2, key),
        string_field(d1, key) == string_field(d2, key),
{
}

/// The fixed URL of the per-block statistics endpoint for a height.
pub open spec fn spec_block_stats_url(height: u64) -> Seq<char> {
    "https://api-mainnet.celenium.io/v1/block/"@ + dec_str(height as int) + "/stats"@
}

impl CelestiaSearchTool {
    /// Builds the request URL for the given block height.
    pub fn block_stats_url(height: u64) -> (r: String)
        ensures
            r@ == spec_block_stats_url(height),
    {
        let mut url = String::from_str("https://api-mainnet.celenium.io/v1/block/");
        url.append(u64_to_string(height).as_str());
        url.append("/stats");
        proof {
            assert(url@ =~= spec_block_stats_url(height));
        }
        url
    }

    /// Decides the outcome of a search from the HTTP status and the raw body:
    /// a status outside the success range fails with the status and body as
    /// detail; a body that is not JSON fails as a transport/format error; a
    /// document carrying a top-level `error` member fails with its message;
    /// anything else succeeds with the rendered fee line.
    pub fn process_response(status: u16, body: &str) -> (r: Result<String, CelestiaSearchError>)
        ensures
            !is_success_status(status) ==> (r matches Err(CelestiaSearchError::ApiError(d))
                && d@ == spec_status_error_detail(status, body@)),
            is_success_status(status) && json_doc(body@) is None ==> r matches Err(
                CelestiaSearchError::HttpRequestFailed(_),
            ),
            is_success_status(status) ==> (json_doc(body@) matches Some(doc) ==> (
                (json_field(doc, "error"@) is Some ==> (r matches Err(
                    CelestiaSearchError::ApiError(d),
                ) && d@ == api_error_detail(doc)))
                && (json_field(doc, "error"@) is None ==> (r matches Ok(line)
                    && line@ == fee_line(doc)))
            )),
    {
        if !(status >= 200 && status <= 299) {
            let mut detail = String::from_str("Status: ");
            detail.append(u64_to_string(status as u64).as_str());
            detail.append(", Response: ");
            detail.append(body);
            proof {
                assert(detail@ =~= spec_status_error_detail(status, body@));
            }
            return Err(CelestiaSearchError::ApiError(detail));
        }
        let doc = match parse_json(body) {
            Ok(v) => v,
            Err(e) => {
                return Err(CelestiaSearchError::HttpRequestFailed(e));
            },
        };
        if let Some(err_obj) = get_field(&doc, "error") {
            let detail = match get_field(err_obj, "message") {
                Some(m) => match value_as_string(m) {
                    Some(t) => t,
                    None => String::from_str("Unknown error"),
                },
                None => String::from_str("Unknown error"),
            };
            return Err(CelestiaSearchError::ApiError(detail));
        }
        let stats = CelestiaOption::extract(&doc);
        let mut line = String::from_str("    The gas fee is: ");
        line.append(stats.fee.as_str());
        Ok(line)
    }
}

} // verus!
