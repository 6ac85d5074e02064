use candle_chart::labels::{select_labels, should_show_label};
use candle_chart::series::BarTime;

fn bar(epoch: i64, year: i32, month: u32, day: u32) -> BarTime {
    BarTime { epoch, year, month, day }
}

#[test]
fn last_bar_always_labelled() {
    let s = vec![bar(1, 2023, 1, 3), bar(2, 2023, 1, 4), bar(3, 2023, 1, 5)];
    let labels = select_labels(&s);
    assert_eq!(labels.last(), s.last());
    assert_eq!(labels, vec![bar(3, 2023, 1, 5)]);
}

#[test]
fn one_label_per_month_last_bar_of_each() {
    let s = vec![
        bar(1, 2023, 1, 30),
        bar(2, 2023, 1, 31),
        bar(3, 2023, 2, 1),
        bar(4, 2023, 2, 28),
        bar(5, 2023, 3, 1),
        bar(6, 2023, 3, 2),
        bar(7, 2023, 3, 3),
    ];
    let labels = select_labels(&s);
    assert_eq!(labels, vec![bar(2, 2023, 1, 31), bar(4, 2023, 2, 28), bar(7, 2023, 3, 3)]);
}

#[test]
fn same_month_different_year_is_a_boundary() {
    let s = vec![bar(1, 2022, 6, 30), bar(2, 2023, 6, 1), bar(3, 2023, 6, 2)];
    let labels = select_labels(&s);
    assert_eq!(labels, vec![bar(1, 2022, 6, 30), bar(3, 2023, 6, 2)]);
}

#[test]
fn single_bar_series_has_one_label() {
    let s = vec![bar(42, 2023, 5, 17)];
    assert_eq!(select_labels(&s), vec![bar(42, 2023, 5, 17)]);
}

#[test]
fn empty_series_has_no_labels() {
    let s: Vec<BarTime> = Vec::new();
    assert!(select_labels(&s).is_empty());
}

#[test]
fn label_rule_with_lookahead() {
    let a = bar(1, 2023, 1, 31);
    let b = bar(2, 2023, 2, 1);
    let c = bar(3, 2023, 1, 30);
    assert!(should_show_label(&a, None));
    assert!(should_show_label(&a, Some(&b)));
    assert!(!should_show_label(&c, Some(&a)));
}
