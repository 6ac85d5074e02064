use candle_chart::error::ChartError;
use candle_chart::series::{to_bar_times, validate, RawSeries, MAX_DATED_EPOCH, MIN_DATED_EPOCH};

fn raw(n: [usize; 6], status: &str) -> RawSeries {
    RawSeries {
        opens: vec![1; n[0]],
        highs: vec![2; n[1]],
        lows: vec![0; n[2]],
        closes: vec![1; n[3]],
        volumes: vec![7; n[4]],
        timestamps: (0..n[5] as i64).map(|i| 1673784000 + i * 86_400).collect(),
        status: status.to_string(),
    }
}

#[test]
fn short_volumes_is_shape_mismatch() {
    let r = raw([5, 5, 5, 5, 4, 5], "ok");
    assert_eq!(validate(r).unwrap_err(), ChartError::ShapeMismatch);
}

#[test]
fn short_timestamps_is_shape_mismatch() {
    let r = raw([5, 5, 5, 5, 5, 4], "ok");
    assert_eq!(validate(r).unwrap_err(), ChartError::ShapeMismatch);
}

#[test]
fn bad_status_is_remote_status_error() {
    let r = raw([5, 5, 5, 5, 5, 5], "no_data");
    assert_eq!(validate(r).unwrap_err(), ChartError::RemoteStatus("no_data".to_string()));
}

#[test]
fn valid_series_gets_calendar_dates() {
    let r = raw([3, 3, 3, 3, 3, 3], "ok");
    let s = validate(r.clone()).unwrap();
    assert_eq!(s.len(), 3);
    assert_eq!(s.opens, r.opens);
    assert_eq!(s.volumes, r.volumes);
    for (i, t) in s.timestamps.iter().enumerate() {
        assert_eq!(t.epoch, r.timestamps[i]);
        assert_eq!(t.year, 2023);
        assert_eq!(t.month, 1);
    }
}

#[test]
fn epoch_converts_to_local_date() {
    // 2023-01-15 12:00:00 UTC
    let v = to_bar_times(&vec![1673784000]).unwrap();
    assert_eq!(v[0].epoch, 1673784000);
    assert_eq!((v[0].year, v[0].month), (2023, 1));
    assert!((14..=16).contains(&v[0].day));
}

#[test]
fn out_of_range_epoch_is_invalid_timestamp() {
    assert_eq!(to_bar_times(&vec![0, i64::MAX]), Err(ChartError::InvalidTimestamp(i64::MAX)));
}

#[test]
fn new_year_2023_converts() {
    // 2023-01-01 00:00:00 UTC
    let v = to_bar_times(&vec![1672531200]).unwrap();
    assert_eq!(v[0].epoch, 1672531200);
    assert!((v[0].year, v[0].month) == (2023, 1) || (v[0].year, v[0].month, v[0].day) == (2022, 12, 31));
}

#[test]
fn dated_range_bounds_convert() {
    let v = to_bar_times(&vec![MIN_DATED_EPOCH, 0, MAX_DATED_EPOCH]).unwrap();
    assert_eq!(v.len(), 3);
    assert_eq!(v[0].epoch, MIN_DATED_EPOCH);
    assert_eq!(v[2].epoch, MAX_DATED_EPOCH);
    assert_eq!(MIN_DATED_EPOCH, -62_135_596_800);
    assert_eq!(MAX_DATED_EPOCH, 253_402_300_799);
}
