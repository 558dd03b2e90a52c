use vstd::prelude::*;
use vstd::string::StringExecFns;
use crate::quote::{quote_of, FetchError, Quote};

verus! {

/// The state as a value: token, quote and the three flags.
pub struct PriceView {
    pub token: Seq<char>,
    pub quote: Quote,
    pub auto_update: bool,
    pub fetching: bool,
    pub loop_running: bool,
}

/// The shared state of the checker. The three figures of the quote change
/// together, and at most one fetch holds the guard at a time.
pub struct PriceState {
    token: String,
    quote: Quote,
    auto_update: bool,
    fetching: bool,
    loop_running: bool,
}

impl View for PriceState {
    type V = PriceView;

    closed spec fn view(&self) -> PriceView {
        PriceView {
            token: self.token@,
            quote: self.quote,
            auto_update: self.auto_update,
            fetching: self.fetching,
            loop_running: self.loop_running,
        }
    }
}

/// A request to start a fetch: dropped while the guard is held, else it
/// takes the guard.
pub open spec fn after_begin(s: PriceView) -> PriceView {
    if s.fetching {
        s
    } else {
        PriceView { fetching: true, ..s }
    }
}

/// A fetch that completed: its quote, or zeros on failure, and the guard
/// released.
pub open spec fn after_finish(s: PriceView, outcome: Result<Quote, FetchError>) -> PriceView {
    PriceView {
        quote: match outcome {
            Ok(q) => q,
            Err(_) => Quote::zero_spec(),
        },
        fetching: false,
        ..s
    }
}

/// The user's auto-update toggle.
pub open spec fn after_toggle(s: PriceView) -> PriceView {
    PriceView { auto_update: !s.auto_update, ..s }
}

/// The render pass's entry check: a loop starts when auto-update is on and
/// none runs.
pub open spec fn after_loop_start(s: PriceView) -> PriceView {
    if s.auto_update && !s.loop_running {
        PriceView { loop_running: true, ..s }
    } else {
        s
    }
}

/// The loop's check at the top of each iteration: with auto-update off it
/// exits and marks itself stopped.
pub open spec fn after_loop_check(s: PriceView) -> PriceView {
    if s.auto_update {
        s
    } else {
        PriceView { loop_running: false, ..s }
    }
}

/// One fetch request carried through: dropped while the guard is held, else
/// begun and completed with `outcome`.
pub open spec fn fetch_cycle(s: PriceView, outcome: Result<Quote, FetchError>) -> PriceView {
    if s.fetching {
        s
    } else {
        after_finish(after_begin(s), outcome)
    }
}

/// Fetch requests carried through one after another, with the given
/// outcomes.
pub open spec fn run_fetch_cycles(s: PriceView, outcomes: Seq<Result<Quote, FetchError>>) -> PriceView
    decreases outcomes.len(),
{
    if outcomes.len() == 0 {
        s
    } else {
        fetch_cycle(run_fetch_cycles(s, outcomes.drop_last()), outcomes.last())
    }
}

impl PriceState {
    /// Empty token, zero quote, all flags down.
    pub fn new() -> (r: PriceState)
        ensures
            r@ == (PriceView {
                token: Seq::empty(),
                quote: Quote::zero_spec(),
                auto_update: false,
                fetching: false,
                loop_running: false,
            }),
    {
        PriceState {
            token: String::new(),
            quote: Quote::zero(),
            auto_update: false,
            fetching: false,
            loop_running: false,
        }
    }

    /// Starts a fetch if the guard is free: takes the guard and returns the
    /// token to ask for. While another fetch holds the guard, nothing changes
    /// and `None` comes back.
    pub fn try_begin_fetch(&mut self) -> (r: Option<String>)
        ensures
            final(self)@ == after_begin(old(self)@),
            old(self)@.fetching ==> r is None,
            !old(self)@.fetching ==> (r matches Some(t) && t@ == old(self)@.token),
    {
        if self.fetching {
            None
        } else {
            self.fetching = true;
            Some(self.token.clone())
        }
    }

    /// Completes a fetch: stores its quote, or zeros on any failure, and
    /// releases the guard.
    pub fn finish_fetch(&mut self, outcome: Result<Quote, FetchError>)
        ensures
            final(self)@ == after_finish(old(self)@, outcome),
            !final(self)@.fetching,
            outcome matches Ok(q) ==> final(self)@.quote == q,
            outcome is Err ==> final(self)@.quote == Quote::zero_spec(),
    {
        self.quote = match outcome {
            Ok(q) => q,
            Err(_) => Quote::zero(),
        };
        self.fetching = false;
    }

    /// Flips auto-update. The loop itself starts or stops on its own next
    /// check.
    pub fn toggle_auto_update(&mut self)
        ensures
            final(self)@ == after_toggle(old(self)@),
    {
        self.auto_update = !self.auto_update;
    }

    /// Marks the auto-update loop as running when auto-update is on and no
    /// loop runs; `true` tells the caller to start it.
    pub fn try_start_loop(&mut self) -> (r: bool)
        ensures
            final(self)@ == after_loop_start(old(self)@),
            r == (old(self)@.auto_update && !old(self)@.loop_running),
    {
        if self.auto_update && !self.loop_running {
            self.loop_running = true;
            true
        } else {
            false
        }
    }

    /// The loop's check before each wait: `false` means it must exit, and it
    /// is then marked stopped.
    pub fn loop_should_continue(&mut self) -> (r: bool)
        ensures
            final(self)@ == after_loop_check(old(self)@),
            r == old(self)@.auto_update,
    {
        if self.auto_update {
            true
        } else {
            self.loop_running = false;
            false
        }
    }

    /// Replaces the token, as the text field does on every render pass.
    pub fn set_token(&mut self, token: &str)
        ensures
            final(self)@ == (PriceView { token: token@, ..old(self)@ }),
    {
        self.token = String::from_str(token);
    }

    pub fn token(&self) -> (r: &str)
        ensures
            r@ == self@.token,
    {
        self.token.as_str()
    }

    pub fn quote(&self) -> (r: Quote)
        ensures
            r == self@.quote,
    {
        self.quote
    }

    pub fn is_fetching(&self) -> (r: bool)
        ensures
            r == self@.fetching,
    {
        self.fetching
    }

    pub fn auto_update_enabled(&self) -> (r: bool)
        ensures
            r == self@.auto_update,
    {
        self.auto_update
    }

    pub fn loop_running(&self) -> (r: bool)
        ensures
            r == self@.loop_running,
    {
        self.loop_running
    }
}

/// A fetch whose reply held a `usd` number leaves exactly that price, with
/// market cap and volume taken from the reply or zero where absent.
pub proof fn law_present_usd_sets_quote(
    s: PriceView,
    usd: u64,
    market_cap: Option<u64>,
    volume: Option<u64>,
)
    ensures
        after_finish(s, quote_of(Some(usd), market_cap, volume)).quote == (Quote {
            price_bits: usd,
            market_cap_bits: crate::quote::or_zero(market_cap),
            volume_bits: crate::quote::or_zero(volume),
        }),
{
}

/// A fetch whose reply lacks the `usd` number fails, and the quote becomes
/// all zeros.
pub proof fn law_missing_usd_zeroes_quote(s: PriceView, market_cap: Option<u64>, volume: Option<u64>)
    ensures
        quote_of(None, market_cap, volume) is Err,
        after_finish(s, quote_of(None, market_cap, volume)).quote == Quote::zero_spec(),
{
}

/// Starting from a free guard, after any number of fetch requests have been
/// carried through, whatever their outcomes, the guard is free again.
pub proof fn law_guard_released(s: PriceView, outcomes: Seq<Result<Quote, FetchError>>)
    requires
        !s.fetching,
    ensures
        !run_fetch_cycles(s, outcomes).fetching,
    decreases outcomes.len(),
{
    if outcomes.len() > 0 {
        law_guard_released(s, outcomes.drop_last());
    }
}

/// Turning auto-update on while no loop runs lets the next entry check start
/// a loop, and any check after that starts no second one.
pub proof fn law_toggle_on_starts_one_loop(s: PriceView)
    requires
        !s.auto_update,
        !s.loop_running,
    ensures
        after_toggle(s).auto_update && !after_toggle(s).loop_running,
        after_loop_start(after_toggle(s)).loop_running,
        after_loop_start(after_loop_start(after_toggle(s))) == after_loop_start(after_toggle(s)),
{
}

/// Turning auto-update off makes the running loop exit at its next check,
/// which comes within one wait, and marks it stopped; fetches that complete
/// in between do not change this.
pub proof fn law_toggle_off_stops_loop(s: PriceView, outcome: Result<Quote, FetchError>)
    requires
        s.auto_update,
        s.loop_running,
    ensures
        !after_toggle(s).auto_update,
        !after_loop_check(after_toggle(s)).loop_running,
        !after_loop_check(after_begin(after_toggle(s))).loop_running,
        !after_loop_check(after_finish(after_toggle(s), outcome)).loop_running,
{
}

} // verus!
