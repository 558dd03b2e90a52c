use vstd::prelude::*;

verus! {

/// The USD quote of one token. Each figure is held as the IEEE-754 bit
/// pattern of a binary64 value, so the library carries the provider's
/// numbers through unchanged; the all-zero pattern is `0.0`.
#[derive(Clone, Copy, Debug, PartialEq, Eq, Structural)]
pub struct Quote {
    pub price_bits: u64,
    pub market_cap_bits: u64,
    pub volume_bits: u64,
}

/// Why a fetch produced no quote. All kinds are handled alike: the quote is
/// zeroed.
#[derive(Clone, Copy, Debug, PartialEq, Eq, Structural)]
pub enum FetchError {
    /// The request could not be sent or the connection failed.
    Network,
    /// The reply body is not valid JSON.
    Decode,
    /// The reply has no `usd` number under the token's key.
    MissingField,
}

impl Quote {
    pub open spec fn zero_spec() -> Quote {
        Quote { price_bits: 0, market_cap_bits: 0, volume_bits: 0 }
    }

    /// The quote shown before any fetch, and after a failed one.
    pub fn zero() -> (r: Quote)
        ensures
            r == Quote::zero_spec(),
    {
        Quote { price_bits: 0, market_cap_bits: 0, volume_bits: 0 }
    }
}

/// An optional figure, with absence read as `0.0`.
pub open spec fn or_zero(v: Option<u64>) -> u64 {
    match v {
        Some(x) => x,
        None => 0,
    }
}

/// The outcome of a fetch from the three figures found in the reply: the
/// price is required, market cap and volume default to zero.
pub open spec fn quote_of(usd: Option<u64>, market_cap: Option<u64>, volume: Option<u64>) -> Result<
    Quote,
    FetchError,
> {
    match usd {
        Some(p) => Ok(
            Quote { price_bits: p, market_cap_bits: or_zero(market_cap), volume_bits: or_zero(volume) },
        ),
        None => Err(FetchError::MissingField),
    }
}

/// Builds the fetch outcome from the `usd`, `usd_market_cap` and
/// `usd_24h_vol` figures of a reply.
pub fn quote_from_fields(usd: Option<u64>, market_cap: Option<u64>, volume: Option<u64>) -> (r:
    Result<Quote, FetchError>)
    ensures
        r == quote_of(usd, market_cap, volume),
{
    match usd {
        Some(p) => {
            let m: u64 = match market_cap {
                Some(x) => x,
                None => 0,
            };
            let v: u64 = match volume {
                Some(x) => x,
                None => 0,
            };
            Ok(Quote { price_bits: p, market_cap_bits: m, volume_bits: v })
        },
        None => Err(FetchError::MissingField),
    }
}

} // verus!
