use vstd::prelude::*;

use crate::candles::{candle_points, draws_bar, CandlePoint};
use crate::error::ChartError;
use crate::labels::{chronological, labels_of, lemma_one_label_per_month, months_of, select_labels};
use crate::range::{is_max_of, is_min_of, price_range, PADDING};
use crate::series::{BarTime, PriceBarSeries};

verus! {

/// Everything the renderer draws, decided from a validated series.
#[derive(Clone, Debug)]
pub struct ChartPlan {
    /// The x-axis tick labels.
    pub labels: Vec<BarTime>,
    /// The lower bound of the price axis, in ticks.
    pub y_min: i128,
    /// The upper bound of the price axis, in ticks.
    pub y_max: i128,
    /// One candle per bar, in index order.
    pub candles: Vec<CandlePoint>,
}

/// Whether `p` is the plan of series `s`.
pub open spec fn plans(p: ChartPlan, s: PriceBarSeries) -> bool {
    &&& p.labels@ == labels_of(s.timestamps@)
    &&& is_min_of(p.y_min + PADDING, s.lows@)
    &&& is_max_of(p.y_max - PADDING, s.highs@)
    &&& p.candles@.len() == s.spec_len()
    &&& forall|i: int| 0 <= i < p.candles@.len() ==> draws_bar(#[trigger] p.candles@[i], s, i)
}

/// Selects the labels, computes the price axis and colours the candles of a
/// validated series; fails with `EmptySeries` when it has no bars.
pub fn plan_chart(series: &PriceBarSeries) -> (r: Result<ChartPlan, ChartError>)
    requires
        series.wf(),
    ensures
        series.spec_len() == 0 ==> r == Err::<ChartPlan, ChartError>(ChartError::EmptySeries),
        series.spec_len() > 0 ==> (r matches Ok(p) && plans(p, *series)),
{
    let (y_min, y_max) = match price_range(&series.highs, &series.lows) {
        Ok(bounds) => bounds,
        Err(e) => {
            return Err(e);
        },
    };
    let labels = select_labels(&series.timestamps);
    let candles = candle_points(series);
    Ok(ChartPlan { labels, y_min, y_max, candles })
}

/// The plan of a chronological series has one label per (year, month) that
/// the series spans and one candle per bar.
pub proof fn lemma_plan_counts(p: ChartPlan, s: PriceBarSeries)
    requires
        s.wf(),
        chronological(s.timestamps@),
        plans(p, s),
    ensures
        p.labels@.len() == months_of(s.timestamps@).len(),
        p.candles@.len() == s.spec_len(),
{
    lemma_one_label_per_month(s.timestamps@);
}

} // verus!
