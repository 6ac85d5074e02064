use candle_chart::chart::plan_chart;
use candle_chart::error::ChartError;
use candle_chart::fetch::{
    lookback_window, next_fetch_action, CandleQuery, Config, FetchAction, FetchOutcome,
    Resolution, MAX_FETCH_ATTEMPTS,
};
use candle_chart::series::{validate, RawSeries, PRICE_SCALE};

// 2023-01-02 12:00:00 UTC
const FIRST_NOON: i64 = 1672660800;

fn three_months() -> RawSeries {
    // daily bars from 2023-01-02 to 2023-03-30 at noon UTC
    let n: i64 = 88;
    let opens: Vec<i64> = (0..n).map(|i| (100 + i % 7) * PRICE_SCALE).collect();
    let closes: Vec<i64> = (0..n).map(|i| (100 + i % 5) * PRICE_SCALE).collect();
    RawSeries {
        highs: opens.iter().zip(&closes).map(|(o, c)| *o.max(c) + PRICE_SCALE).collect(),
        lows: opens.iter().zip(&closes).map(|(o, c)| *o.min(c) - PRICE_SCALE).collect(),
        opens,
        closes,
        volumes: (0..n).map(|i| 1000 + i as i128).collect(),
        timestamps: (0..n).map(|i| FIRST_NOON + i * 86_400).collect(),
        status: "ok".to_string(),
    }
}

#[test]
fn three_months_give_three_labels_and_one_candle_per_bar() {
    let series = validate(three_months()).unwrap();
    let plan = plan_chart(&series).unwrap();
    assert_eq!(plan.labels.len(), 3);
    let months: Vec<u32> = plan.labels.iter().map(|l| l.month).collect();
    assert_eq!(months, vec![1, 2, 3]);
    assert_eq!(plan.labels.last(), series.timestamps.last());
    assert_eq!(plan.candles.len(), series.len());
    assert_eq!(plan.candles.len(), 88);
    assert_eq!(plan.y_min, (99 - 25) as i128 * PRICE_SCALE as i128);
    assert_eq!(plan.y_max, (107 + 25) as i128 * PRICE_SCALE as i128);
}

#[test]
fn empty_series_cannot_be_planned() {
    let raw = RawSeries {
        opens: vec![],
        highs: vec![],
        lows: vec![],
        closes: vec![],
        volumes: vec![],
        timestamps: vec![],
        status: "ok".to_string(),
    };
    let series = validate(raw).unwrap();
    assert_eq!(plan_chart(&series).unwrap_err(), ChartError::EmptySeries);
}

#[test]
fn resolution_codes() {
    assert_eq!(Resolution::Daily.code(), "D");
    assert_eq!(Resolution::Weekly.code(), "W");
}

#[test]
fn window_is_one_year_back() {
    assert_eq!(lookback_window(1_700_000_000), (1_700_000_000 - 365 * 86_400, 1_700_000_000));
}

#[test]
fn query_keeps_its_parts() {
    let q = CandleQuery::new("MSFT".to_string(), Resolution::Daily, 1672531200, 1680220800);
    assert_eq!(q.symbol, "MSFT");
    assert_eq!(q.resolution, Resolution::Daily);
    assert_eq!((q.from, q.to), (1672531200, 1680220800));
}

#[test]
fn missing_credential_is_config_error() {
    assert_eq!(Config::from_key(None).unwrap_err(), ChartError::Config);
    assert_eq!(Config::from_key(Some("k".to_string())).unwrap().api_key, "k");
}

#[test]
fn retry_once_on_transient_failure() {
    assert_eq!(next_fetch_action(1, FetchOutcome::Received), FetchAction::Accept);
    assert_eq!(next_fetch_action(1, FetchOutcome::TransientFailure), FetchAction::Retry);
    assert_eq!(
        next_fetch_action(MAX_FETCH_ATTEMPTS, FetchOutcome::TransientFailure),
        FetchAction::Abort
    );
    assert_eq!(next_fetch_action(1, FetchOutcome::PermanentFailure), FetchAction::Abort);
}
