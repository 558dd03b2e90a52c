//! State and rules of a single-token price checker: the quote decoded from a
//! price provider's JSON reply, the single-flight fetch guard, and the
//! auto-update loop's start and stop decisions.

mod json;
mod quote;
mod state;

pub use json::{decode_response, decoded, field_of, price_url};
pub use quote::{or_zero, quote_of, quote_from_fields, FetchError, Quote};
pub use state::{
    after_begin, after_finish, after_loop_check, after_loop_start, after_toggle, fetch_cycle,
    law_guard_released, law_missing_usd_zeroes_quote, law_present_usd_sets_quote,
    law_toggle_off_stops_loop, law_toggle_on_starts_one_loop, run_fetch_cycles, PriceState,
    PriceView,
};
