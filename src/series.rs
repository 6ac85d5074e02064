use chrono::{Datelike, Local, TimeZone};
use vstd::prelude::*;

use crate::error::ChartError;

verus! {

/// Number of price ticks in one price unit: prices are fixed-point values
/// with four decimal places.
pub const PRICE_SCALE: i64 = 10_000;

/// Epoch second of 0001-01-01T00:00:00Z.
pub const MIN_DATED_EPOCH: i64 = -62_135_596_800;

/// Epoch second of 9999-12-31T23:59:59Z.
pub const MAX_DATED_EPOCH: i64 = 253_402_300_799;

/// Whether an epoch second lies in years 1 to 9999 (UTC), well inside the
/// range of instants that have a calendar date.
pub open spec fn datable(t: i64) -> bool {
    MIN_DATED_EPOCH <= t <= MAX_DATED_EPOCH
}

/// Whether every epoch second of `epochs` is `datable`.
pub open spec fn all_datable(epochs: Seq<i64>) -> bool {
    forall|k: int| 0 <= k < epochs.len() ==> datable(#[trigger] epochs[k])
}

/// One bar's timestamp: the raw epoch seconds and the calendar date that
/// the local time zone gives them.
#[derive(Clone, Copy, Debug, PartialEq, Eq)]
pub struct BarTime {
    pub epoch: i64,
    pub year: i32,
    pub month: u32,
    pub day: u32,
}

impl BarTime {
    /// Month number ranges as a calendar gives them.
    pub open spec fn wf(self) -> bool {
        1 <= self.month <= 12 && 1 <= self.day <= 31
    }

    /// The (year, month) bucket of the timestamp.
    pub open spec fn month_of(self) -> (i32, u32) {
        (self.year, self.month)
    }

    /// A number that orders (year, month) buckets chronologically.
    pub open spec fn month_index(self) -> int {
        self.year as int * 12 + self.month as int
    }
}

/// A candle series as the provider sends it, before any check: prices in
/// ticks, timestamps in epoch seconds.
#[derive(Clone, Debug)]
pub struct RawSeries {
    pub opens: Vec<i64>,
    pub highs: Vec<i64>,
    pub lows: Vec<i64>,
    pub closes: Vec<i64>,
    pub volumes: Vec<i128>,
    pub timestamps: Vec<i64>,
    pub status: String,
}

/// A validated candle series: all six sequences have one entry per bar.
#[derive(Clone, Debug)]
pub struct PriceBarSeries {
    pub opens: Vec<i64>,
    pub highs: Vec<i64>,
    pub lows: Vec<i64>,
    pub closes: Vec<i64>,
    pub volumes: Vec<i128>,
    pub timestamps: Vec<BarTime>,
    pub status: String,
}

/// The status the provider reports for a successful request.
pub open spec fn ok_status() -> Seq<char> {
    seq!['o', 'k']
}

impl RawSeries {
    /// Whether the six parallel sequences share one length.
    pub open spec fn same_lengths(&self) -> bool {
        &&& self.highs@.len() == self.opens@.len()
        &&& self.lows@.len() == self.opens@.len()
        &&& self.closes@.len() == self.opens@.len()
        &&& self.volumes@.len() == self.opens@.len()
        &&& self.timestamps@.len() == self.opens@.len()
    }
}

impl PriceBarSeries {
    /// Whether the six parallel sequences share one length and every
    /// timestamp carries a calendar date.
    pub open spec fn wf(&self) -> bool {
        &&& self.highs@.len() == self.opens@.len()
        &&& self.lows@.len() == self.opens@.len()
        &&& self.closes@.len() == self.opens@.len()
        &&& self.volumes@.len() == self.opens@.len()
        &&& self.timestamps@.len() == self.opens@.len()
        &&& forall|i: int| 0 <= i < self.timestamps@.len() ==> (#[trigger] self.timestamps@[i]).wf()
    }

    /// Number of bars.
    pub open spec fn spec_len(&self) -> nat {
        self.opens@.len()
    }

    /// Whether `self` holds `raw`'s values with `times` as its timestamps.
    pub open spec fn built_from(&self, raw: &RawSeries, times: Seq<BarTime>) -> bool {
        &&& self.opens@ == raw.opens@
        &&& self.highs@ == raw.highs@
        &&& self.lows@ == raw.lows@
        &&& self.closes@ == raw.closes@
        &&& self.volumes@ == raw.volumes@
        &&& self.timestamps@ == times
        &&& self.status@ == raw.status@
    }

    /// Number of bars.
    pub fn len(&self) -> (r: usize)
        ensures
            r == self.spec_len(),
    {
        self.opens.len()
    }
}

/// Whether `times` converts `epochs` one for one into calendar dates.
pub open spec fn dates_of(times: Seq<BarTime>, epochs: Seq<i64>) -> bool {
    &&& times.len() == epochs.len()
    &&& forall|i: int|
        0 <= i < times.len() ==> (#[trigger] times[i]).epoch == epochs[i] && times[i].wf()
}

/// Relies on chrono's `Local.timestamp_opt(t, 0).single()`, then `year`,
/// `month` and `day` of `Datelike`: the calendar date of an epoch second in
/// the local time zone, with month in 1..=12 and day in 1..=31. chrono
/// documents `timestamp_opt` as `Single` for every second in its range,
/// which holds years 1 to 9999; `None` comes only outside that range.
#[verifier::external_body]
fn parse_time(timestamp: i64) -> (r: Option<BarTime>)
    ensures
        r matches Some(t) ==> t.epoch == timestamp && t.wf(),
        datable(timestamp) ==> r is Some,
{
    match Local.timestamp_opt(timestamp, 0).single() {
        Some(d) => Some(BarTime { epoch: timestamp, year: d.year(), month: d.month(), day: d.day() }),
        None => None,
    }
}

/// Converts each epoch timestamp into its local calendar date; fails on the
/// first one that has none, which only a second outside years 1 to 9999 can
/// be.
pub fn to_bar_times(epochs: &Vec<i64>) -> (r: Result<Vec<BarTime>, ChartError>)
    ensures
        r matches Ok(v) ==> dates_of(v@, epochs@),
        all_datable(epochs@) ==> r is Ok,
        r matches Err(e) ==> (e matches ChartError::InvalidTimestamp(t) && !datable(t)),
        r matches Err(e) ==> (e matches ChartError::InvalidTimestamp(t) && epochs@.contains(t)),
{
    let mut out: Vec<BarTime> = Vec::new();
    let mut i: usize = 0;
    while i < epochs.len()
        invariant
            i <= epochs@.len(),
            dates_of(out@, epochs@.subrange(0, i as int)),
        decreases epochs@.len() - i,
    {
        let t = epochs[i];
        match parse_time(t) {
            Some(b) => {
                out.push(b);
            },
            None => {
                assert(epochs@[i as int] == t);
                return Err(ChartError::InvalidTimestamp(t));
            },
        }
        i = i + 1;
    }
    assert(epochs@.subrange(0, epochs@.len() as int) =~= epochs@);
    Ok(out)
}

/// Checks the provider's status and that the six sequences share a length.
pub fn check_shape(raw: &RawSeries) -> (r: Result<(), ChartError>)
    ensures
        raw.status@ != ok_status() ==> r == Err::<(), ChartError>(
            ChartError::RemoteStatus(raw.status),
        ),
        raw.status@ == ok_status() && !raw.same_lengths() ==> r == Err::<(), ChartError>(
            ChartError::ShapeMismatch,
        ),
        raw.status@ == ok_status() && raw.same_lengths() ==> r is Ok,
{
    let ok = "ok".to_owned();
    proof {
        reveal_strlit("ok");
        assert(ok@ =~= ok_status());
    }
    if !(raw.status == ok) {
        return Err(ChartError::RemoteStatus(raw.status.clone()));
    }
    let n = raw.opens.len();
    if raw.highs.len() != n || raw.lows.len() != n || raw.closes.len() != n
        || raw.volumes.len() != n || raw.timestamps.len() != n {
        return Err(ChartError::ShapeMismatch);
    }
    Ok(())
}

/// Builds the series from a raw one that passed `check_shape` and the
/// calendar dates of its timestamps.
pub fn assemble(raw: RawSeries, times: Vec<BarTime>) -> (r: PriceBarSeries)
    requires
        raw.same_lengths(),
        dates_of(times@, raw.timestamps@),
    ensures
        r.wf(),
        r.built_from(&raw, times@),
{
    PriceBarSeries {
        opens: raw.opens,
        highs: raw.highs,
        lows: raw.lows,
        closes: raw.closes,
        volumes: raw.volumes,
        timestamps: times,
        status: raw.status,
    }
}

/// Validates a raw series and gives each timestamp its local calendar date.
/// Fails with `RemoteStatus` when the status is not `"ok"`, then with
/// `ShapeMismatch` when the sequences differ in length, and with
/// `InvalidTimestamp` when a timestamp has no local date, which only one
/// outside years 1 to 9999 can lack.
pub fn validate(raw: RawSeries) -> (r: Result<PriceBarSeries, ChartError>)
    ensures
        raw.status@ != ok_status() ==> r == Err::<PriceBarSeries, ChartError>(
            ChartError::RemoteStatus(raw.status),
        ),
        raw.status@ == ok_status() && !raw.same_lengths() ==> r
            == Err::<PriceBarSeries, ChartError>(ChartError::ShapeMismatch),
        raw.status@ == ok_status() && raw.same_lengths() ==> match r {
            Ok(s) => s.wf() && exists|times: Seq<BarTime>|
                dates_of(times, raw.timestamps@) && #[trigger] s.built_from(&raw, times),
            Err(e) => e matches ChartError::InvalidTimestamp(t) && raw.timestamps@.contains(t)
                && !datable(t),
        },
        raw.status@ == ok_status() && raw.same_lengths() && all_datable(raw.timestamps@) ==> r is Ok,
{
    match check_shape(&raw) {
        Err(e) => Err(e),
        Ok(()) => match to_bar_times(&raw.timestamps) {
            Err(e) => Err(e),
            Ok(times) => {
                let ghost g = times@;
                let ghost raw0 = raw;
                let s = assemble(raw, times);
                assert(s.built_from(&raw0, g));
                Ok(s)
            },
        },
    }
}

} // verus!
