use vstd::prelude::*;
use vstd::string::StringExecFns;
use serde_json::Value;
use crate::quote::{quote_from_fields, quote_of, FetchError, Quote};

verus! {

#[verifier::external_type_specification]
#[verifier::external_body]
pub struct ExValue(serde_json::Value);

// The value that serde_json::from_str makes of a text, if the text is JSON.
pub uninterp spec fn parsed_json(text: Seq<char>) -> Option<Value>;

// The member of a JSON value under a string key, as serde_json::Value::get
// finds it.
pub uninterp spec fn json_member(v: Value, key: Seq<char>) -> Option<Value>;

// The bit pattern of the number that serde_json::Value::as_f64 reads from a
// JSON value, if it holds one.
pub uninterp spec fn json_f64_bits(v: Value) -> Option<u64>;

/// Relies on serde_json::from_str: parses a whole JSON document into a value,
/// failing on malformed text; the outcome depends on the text alone.
#[verifier::external_body]
fn parse_value(text: &str) -> (r: Option<Value>)
    ensures
        r == parsed_json(text@),
{
    serde_json::from_str::<Value>(text).ok()
}

/// Relies on serde_json::Value::get with a string index: the member under
/// `key` when `v` is an object holding it, else `None`.
#[verifier::external_body]
fn member<'a>(v: &'a Value, key: &str) -> (r: Option<&'a Value>)
    ensures
        r matches Some(x) ==> json_member(*v, key@) == Some(*x),
        r is None ==> json_member(*v, key@) is None,
{
    v.get(key)
}

/// Relies on serde_json::Value::as_f64: the number held by `v` as a binary64
/// value, returned here as its bit pattern; `None` when `v` is no number.
#[verifier::external_body]
fn number_bits(v: &Value) -> (r: Option<u64>)
    ensures
        r == json_f64_bits(*v),
{
    v.as_f64().map(|x| x.to_bits())
}

/// The figure under `field` in a token's entry, when it is a number.
pub open spec fn field_of(entry: Value, field: Seq<char>) -> Option<u64> {
    match json_member(entry, field) {
        Some(n) => json_f64_bits(n),
        None => None,
    }
}

/// The outcome of decoding the reply `body` for `token`: `Decode` when the
/// body is not JSON, `MissingField` when it has no entry for the token, and
/// otherwise the quote built from the entry's three figures.
pub open spec fn decoded(body: Seq<char>, token: Seq<char>) -> Result<Quote, FetchError> {
    match parsed_json(body) {
        None => Err(FetchError::Decode),
        Some(doc) => match json_member(doc, token) {
            None => Err(FetchError::MissingField),
            Some(entry) => quote_of(
                field_of(entry, "usd"@),
                field_of(entry, "usd_market_cap"@),
                field_of(entry, "usd_24h_vol"@),
            ),
        },
    }
}

fn entry_number(entry: &Value, field: &str) -> (r: Option<u64>)
    ensures
        r == field_of(*entry, field@),
{
    match member(entry, field) {
        Some(n) => number_bits(n),
        None => None,
    }
}

/// Decodes the provider's reply for `token`: a JSON object whose member
/// `token` holds `usd` and, optionally, `usd_market_cap` and `usd_24h_vol`.
/// Text that is not JSON gives `Decode`; a reply without a `usd` number gives
/// `MissingField`; otherwise the quote is built by `quote_from_fields`.
pub fn decode_response(body: &str, token: &str) -> (r: Result<Quote, FetchError>)
    ensures
        r == decoded(body@, token@),
{
    match parse_value(body) {
        None => Err(FetchError::Decode),
        Some(doc) => match member(&doc, token) {
            None => Err(FetchError::MissingField),
            Some(entry) => {
                let usd = entry_number(entry, "usd");
                let market_cap = entry_number(entry, "usd_market_cap");
                let volume = entry_number(entry, "usd_24h_vol");
                quote_from_fields(usd, market_cap, volume)
            },
        },
    }
}

/// The provider's "simple price" address asking for the USD price, market
/// cap and 24-hour volume of `token`.
pub fn price_url(token: &str) -> (r: String)
    ensures
        r@ == "https://api.coingecko.com/api/v3/simple/price?ids="@ + token@
            + "&vs_currencies=usd&include_market_cap=true&include_24hr_vol=true"@,
{
    let mut url = String::from_str("https://api.coingecko.com/api/v3/simple/price?ids=");
    url.append(token);
    url.append("&vs_currencies=usd&include_market_cap=true&include_24hr_vol=true");
    url
}

} // verus!
