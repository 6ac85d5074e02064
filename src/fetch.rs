use vstd::prelude::*;

use crate::error::ChartError;

verus! {

/// Seconds in one day.
pub const SECONDS_PER_DAY: i64 = 86_400;

/// Length of the chart's window, in days, ending now.
pub const LOOKBACK_DAYS: i64 = 365;

/// How many times one series is requested before the run gives up.
pub const MAX_FETCH_ATTEMPTS: u32 = 2;

/// Width of the time bucket of one bar.
#[derive(Clone, Copy, Debug, PartialEq, Eq)]
pub enum Resolution {
    Daily,
    Weekly,
}

impl Resolution {
    /// The provider's code for the resolution.
    pub open spec fn spec_code(self) -> Seq<char> {
        match self {
            Resolution::Daily => seq!['D'],
            Resolution::Weekly => seq!['W'],
        }
    }

    /// The provider's code for the resolution: `"D"` or `"W"`.
    pub fn code(&self) -> (r: &'static str)
        ensures
            r@ == self.spec_code(),
    {
        proof {
            reveal_strlit("D");
            reveal_strlit("W");
        }
        match self {
            Resolution::Daily => "D",
            Resolution::Weekly => "W",
        }
    }
}

/// The process configuration the fetcher needs: the provider credential.
#[derive(Clone, Debug)]
pub struct Config {
    pub api_key: String,
}

impl Config {
    /// Builds the configuration from the credential, if one was found;
    /// fails with `Config` when it was not.
    pub fn from_key(api_key: Option<String>) -> (r: Result<Config, ChartError>)
        ensures
            match api_key {
                Some(k) => r matches Ok(c) && c.api_key == k,
                None => r == Err::<Config, ChartError>(ChartError::Config),
            },
    {
        match api_key {
            Some(k) => Ok(Config { api_key: k }),
            None => Err(ChartError::Config),
        }
    }
}

/// The start and end, in epoch seconds, of the window that ends at `now`.
pub open spec fn spec_window(now: int) -> (int, int) {
    (now - LOOKBACK_DAYS * SECONDS_PER_DAY, now)
}

/// The window of `LOOKBACK_DAYS` days that ends at `now` (epoch seconds).
pub fn lookback_window(now: i64) -> (r: (i64, i64))
    requires
        now >= i64::MIN + LOOKBACK_DAYS * SECONDS_PER_DAY,
    ensures
        (r.0 as int, r.1 as int) == spec_window(now as int),
{
    (now - LOOKBACK_DAYS * SECONDS_PER_DAY, now)
}

/// One request for a symbol's bars over a window, at a resolution.
#[derive(Clone, Debug)]
pub struct CandleQuery {
    pub symbol: String,
    pub resolution: Resolution,
    pub from: i64,
    pub to: i64,
}

impl CandleQuery {
    /// A request is well formed when it names a symbol and a window that
    /// ends after it starts.
    pub open spec fn wf(&self) -> bool {
        self.symbol@.len() > 0 && self.from < self.to
    }

    /// The request for `symbol`'s bars from `from` to `to`.
    pub fn new(symbol: String, resolution: Resolution, from: i64, to: i64) -> (r: CandleQuery)
        requires
            symbol@.len() > 0,
            from < to,
        ensures
            r.wf(),
            r.symbol == symbol,
            r.resolution == resolution,
            r.from == from,
            r.to == to,
    {
        CandleQuery { symbol, resolution, from, to }
    }
}

/// What one request attempt came to.
#[derive(Clone, Copy, Debug, PartialEq, Eq)]
pub enum FetchOutcome {
    /// A response body arrived.
    Received,
    /// The transport failed in a way that may pass (a timeout, a reset).
    TransientFailure,
    /// The request failed in a way that another try will not mend.
    PermanentFailure,
}

/// What the fetcher does next.
#[derive(Clone, Copy, Debug, PartialEq, Eq)]
pub enum FetchAction {
    /// Hand the response on to validation.
    Accept,
    /// Send the request again.
    Retry,
    /// Give up and report the failure.
    Abort,
}

/// The retry rule: a received response is accepted, a transient failure is
/// tried again while fewer than `MAX_FETCH_ATTEMPTS` attempts were made, and
/// anything else aborts.
pub open spec fn spec_next_action(attempts_made: u32, outcome: FetchOutcome) -> FetchAction {
    match outcome {
        FetchOutcome::Received => FetchAction::Accept,
        FetchOutcome::TransientFailure => if attempts_made < MAX_FETCH_ATTEMPTS {
            FetchAction::Retry
        } else {
            FetchAction::Abort
        },
        FetchOutcome::PermanentFailure => FetchAction::Abort,
    }
}

/// Decides the fetcher's next step after `attempts_made` attempts, the last
/// of which came to `outcome`.
pub fn next_fetch_action(attempts_made: u32, outcome: FetchOutcome) -> (r: FetchAction)
    ensures
        r == spec_next_action(attempts_made, outcome),
{
    match outcome {
        FetchOutcome::Received => FetchAction::Accept,
        FetchOutcome::TransientFailure => {
            if attempts_made < MAX_FETCH_ATTEMPTS {
                FetchAction::Retry
            } else {
                FetchAction::Abort
            }
        },
        FetchOutcome::PermanentFailure => FetchAction::Abort,
    }
}

/// Whatever the outcomes, a run makes at most `MAX_FETCH_ATTEMPTS` attempts:
/// after that many, the rule never asks for another.
pub proof fn lemma_attempts_bounded(attempts_made: u32, outcome: FetchOutcome)
    requires
        attempts_made >= MAX_FETCH_ATTEMPTS,
    ensures
        spec_next_action(attempts_made, outcome) != FetchAction::Retry,
{
}

} // verus!
