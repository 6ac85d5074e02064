use vstd::prelude::*;

use crate::series::{BarTime, PriceBarSeries};

verus! {

/// The colour a candlestick is drawn in.
#[derive(Clone, Copy, Debug, PartialEq, Eq)]
pub enum CandleColor {
    /// The bar closed above its open (green).
    Up,
    /// The bar closed at or below its open (red).
    Down,
}

/// The colour rule: strictly rising bars are `Up`, all others `Down`.
pub open spec fn color_of(open: i64, close: i64) -> CandleColor {
    if close > open {
        CandleColor::Up
    } else {
        CandleColor::Down
    }
}

/// One bar ready to draw: its time, prices and resolved fill and outline.
#[derive(Clone, Copy, Debug, PartialEq, Eq)]
pub struct CandlePoint {
    pub time: BarTime,
    pub open: i64,
    pub high: i64,
    pub low: i64,
    pub close: i64,
    pub fill: CandleColor,
    pub outline: CandleColor,
}

/// Whether `p` draws bar `i` of `s`.
pub open spec fn draws_bar(p: CandlePoint, s: PriceBarSeries, i: int) -> bool {
    &&& p.time == s.timestamps@[i]
    &&& p.open == s.opens@[i]
    &&& p.high == s.highs@[i]
    &&& p.low == s.lows@[i]
    &&& p.close == s.closes@[i]
    &&& p.fill == color_of(s.opens@[i], s.closes@[i])
    &&& p.outline == color_of(s.opens@[i], s.closes@[i])
}

/// The colour of a bar that opened at `open` and closed at `close`.
pub fn candle_color(open: i64, close: i64) -> (r: CandleColor)
    ensures
        r == color_of(open, close),
{
    if close > open {
        CandleColor::Up
    } else {
        CandleColor::Down
    }
}

/// One candle per bar of the series, in index order.
pub fn candle_points(series: &PriceBarSeries) -> (r: Vec<CandlePoint>)
    requires
        series.wf(),
    ensures
        r@.len() == series.spec_len(),
        forall|i: int| 0 <= i < r@.len() ==> draws_bar(#[trigger] r@[i], *series, i),
{
    let n = series.len();
    let mut out: Vec<CandlePoint> = Vec::new();
    let mut i: usize = 0;
    while i < n
        invariant
            series.wf(),
            n == series.spec_len(),
            i <= n,
            out@.len() == i,
            forall|k: int| 0 <= k < i ==> draws_bar(#[trigger] out@[k], *series, k),
        decreases n - i,
    {
        let color = candle_color(series.opens[i], series.closes[i]);
        out.push(
            CandlePoint {
                time: series.timestamps[i],
                open: series.opens[i],
                high: series.highs[i],
                low: series.lows[i],
                close: series.closes[i],
                fill: color,
                outline: color,
            },
        );
        i = i + 1;
    }
    out
}

} // verus!
