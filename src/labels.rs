use vstd::prelude::*;

use crate::series::BarTime;

verus! {

/// Whether the bar at `i` closes its (year, month) bucket: it is the last
/// bar, or the next bar falls in another month.
pub open spec fn is_label(s: Seq<BarTime>, i: int) -> bool {
    i == s.len() - 1 || s[i].month_of() != s[i + 1].month_of()
}

/// Positions, in increasing order, of the label bars among the first `n`.
pub open spec fn label_positions(s: Seq<BarTime>, n: int) -> Seq<int>
    decreases n,
{
    if n <= 0 {
        Seq::empty()
    } else if is_label(s, n - 1) {
        label_positions(s, n - 1).push(n - 1)
    } else {
        label_positions(s, n - 1)
    }
}

/// The axis labels of a series: the last bar of each run of bars that share
/// a (year, month), in order.
pub open spec fn labels_of(s: Seq<BarTime>) -> Seq<BarTime> {
    label_positions(s, s.len() as int).map_values(|i: int| s[i])
}

/// Whether the (year, month) buckets never go back in time along `s`.
pub open spec fn chronological(s: Seq<BarTime>) -> bool {
    forall|i: int, j: int| 0 <= i <= j < s.len() ==> s[i].month_index() <= s[j].month_index()
}

/// The (year, month) buckets that occur in `s`.
pub open spec fn months_of(s: Seq<BarTime>) -> Set<(i32, u32)> {
    s.map_values(|b: BarTime| b.month_of()).to_set()
}

/// Whether bar `i` is the last of `s` in its (year, month).
pub open spec fn last_in_month(s: Seq<BarTime>, i: int) -> bool {
    forall|k: int| i < k < s.len() ==> s[k].month_of() != s[i].month_of()
}

/// Decides whether `current` gets an axis label, given the bar after it.
pub fn should_show_label(current: &BarTime, next_date: Option<&BarTime>) -> (r: bool)
    ensures
        r == match next_date {
            None => true,
            Some(n) => current.month_of() != n.month_of(),
        },
{
    match next_date {
        Some(n) => current.month != n.month || current.year != n.year,
        None => true,
    }
}

/// Selects the axis labels of a chronological series of bar timestamps:
/// the last bar of each month, in order.
pub fn select_labels(timestamps: &Vec<BarTime>) -> (r: Vec<BarTime>)
    ensures
        r@ == labels_of(timestamps@),
{
    let ghost s = timestamps@;
    let mut labels: Vec<BarTime> = Vec::new();
    let n = timestamps.len();
    let mut i: usize = 0;
    while i < n
        invariant
            n == s.len(),
            s == timestamps@,
            i <= n,
            labels@ == label_positions(s, i as int).map_values(|k: int| s[k]),
        decreases n - i,
    {
        let current = &timestamps[i];
        let next_date = if i + 1 < n {
            Some(&timestamps[i + 1])
        } else {
            None
        };
        let show = should_show_label(current, next_date);
        assert(show == is_label(s, i as int));
        if show {
            labels.push(*current);
            assert(labels@ =~= label_positions(s, i + 1).map_values(|k: int| s[k]));
        } else {
            assert(labels@ =~= label_positions(s, i + 1).map_values(|k: int| s[k]));
        }
        i = i + 1;
    }
    labels
}

/// The label positions among the first `n` bars lie below `n`, increase
/// strictly, are label bars, and hold every label bar below `n`.
pub proof fn lemma_label_positions(s: Seq<BarTime>, n: int)
    requires
        0 <= n <= s.len(),
    ensures
        forall|j: int|
            0 <= j < label_positions(s, n).len() ==> 0 <= #[trigger] label_positions(s, n)[j] < n
                && is_label(s, label_positions(s, n)[j]),
        forall|j1: int, j2: int|
            0 <= j1 < j2 < label_positions(s, n).len() ==> label_positions(s, n)[j1]
                < label_positions(s, n)[j2],
        forall|i: int| 0 <= i < n && is_label(s, i) ==> label_positions(s, n).contains(i),
    decreases n,
{
    if n > 0 {
        lemma_label_positions(s, n - 1);
        let p = label_positions(s, n - 1);
        if is_label(s, n - 1) {
            assert(label_positions(s, n) == p.push(n - 1));
            assert forall|i: int| 0 <= i < n && is_label(s, i) implies label_positions(
                s,
                n,
            ).contains(i) by {
                if i == n - 1 {
                    assert(label_positions(s, n)[p.len() as int] == i);
                } else {
                    let j = choose|j: int| 0 <= j < p.len() && p[j] == i;
                    assert(label_positions(s, n)[j] == i);
                }
            }
        }
    }
}

/// Two dated bars with one month index fall in one (year, month).
proof fn lemma_same_month_index(a: BarTime, b: BarTime)
    requires
        a.wf(),
        b.wf(),
        a.month_index() == b.month_index(),
    ensures
        a.month_of() == b.month_of(),
{
    let (ya, ma, yb, mb) = (a.year as int, a.month as int, b.year as int, b.month as int);
    assert(ya == yb) by (nonlinear_arith)
        requires
            ya * 12 + ma == yb * 12 + mb,
            1 <= ma <= 12,
            1 <= mb <= 12,
    ;
}

/// Every bar shares its (year, month) with a label bar at or after it.
proof fn lemma_reaches_label(s: Seq<BarTime>, i: int)
    requires
        0 <= i < s.len(),
    ensures
        exists|k: int| i <= k < s.len() && is_label(s, k) && s[k].month_of() == s[i].month_of(),
    decreases s.len() - i,
{
    if is_label(s, i) {
        assert(i <= i < s.len() && is_label(s, i));
    } else {
        lemma_reaches_label(s, i + 1);
        let k = choose|k: int|
            i + 1 <= k < s.len() && is_label(s, k) && s[k].month_of() == s[i + 1].month_of();
        assert(i <= k < s.len() && is_label(s, k) && s[k].month_of() == s[i].month_of());
    }
}

/// The last bar of a non-empty series is always among its labels, as the
/// last one.
pub proof fn lemma_last_bar_labelled(s: Seq<BarTime>)
    requires
        s.len() > 0,
    ensures
        labels_of(s).len() > 0,
        labels_of(s).last() == s.last(),
{
    let n = s.len() as int;
    assert(is_label(s, n - 1));
    assert(label_positions(s, n) == label_positions(s, n - 1).push(n - 1));
}

/// A series of one bar has exactly that bar as its label.
pub proof fn lemma_single_bar(s: Seq<BarTime>)
    requires
        s.len() == 1,
    ensures
        labels_of(s) == seq![s[0]],
{
    assert(is_label(s, 0));
    assert(label_positions(s, 0) == Seq::<int>::empty());
    assert(label_positions(s, 1) =~= seq![0int]);
    assert(labels_of(s) =~= seq![s[0]]);
}

/// An empty series has no labels.
pub proof fn lemma_empty_series(s: Seq<BarTime>)
    requires
        s.len() == 0,
    ensures
        labels_of(s).len() == 0,
{
}

/// In a chronological series the labels are one per (year, month) that the
/// series spans, each the last bar of its month.
pub proof fn lemma_one_label_per_month(s: Seq<BarTime>)
    requires
        chronological(s),
        forall|i: int| 0 <= i < s.len() ==> (#[trigger] s[i]).wf(),
    ensures
        labels_of(s).len() == months_of(s).len(),
        forall|j: int|
            0 <= j < labels_of(s).len() ==> exists|i: int|
                0 <= i < s.len() && #[trigger] labels_of(s)[j] == s[i] && last_in_month(s, i),
{
    let n = s.len() as int;
    let p = label_positions(s, n);
    let l = labels_of(s);
    lemma_label_positions(s, n);
    let lm = l.map_values(|b: BarTime| b.month_of());
    let sm = s.map_values(|b: BarTime| b.month_of());
    // a label bar is the last of its month
    assert forall|i: int| 0 <= i < n && is_label(s, i) implies last_in_month(s, i) by {
        assert forall|k: int| i < k < n implies s[k].month_of() != s[i].month_of() by {
            if i + 1 < n {
                assert(s[i].month_index() <= s[i + 1].month_index());
                assert(s[i + 1].month_index() <= s[k].month_index());
                if s[i].month_index() == s[i + 1].month_index() {
                    lemma_same_month_index(s[i], s[i + 1]);
                }
            }
        }
    }
    assert forall|j: int| 0 <= j < l.len() implies exists|i: int|
        0 <= i < s.len() && #[trigger] l[j] == s[i] && last_in_month(s, i) by {
        assert(l[j] == s[p[j]]);
    }
    // distinct months among the labels
    assert forall|a: int, b: int| 0 <= a < lm.len() && 0 <= b < lm.len() && a != b implies lm[a]
        != lm[b] by {
        let (x, y) = if a < b {
            (a, b)
        } else {
            (b, a)
        };
        assert(p[x] < p[y]);
        assert(last_in_month(s, p[x]));
    }
    assert(lm.no_duplicates());
    lm.unique_seq_to_set();
    // same months in labels and series
    assert forall|m: (i32, u32)| lm.to_set().contains(m) <==> sm.to_set().contains(m) by {
        if lm.to_set().contains(m) {
            let j = choose|j: int| 0 <= j < lm.len() && lm[j] == m;
            assert(sm[p[j]] == m);
        }
        if sm.to_set().contains(m) {
            let i = choose|i: int| 0 <= i < sm.len() && sm[i] == m;
            lemma_reaches_label(s, i);
            let k = choose|k: int|
                i <= k < s.len() && is_label(s, k) && s[k].month_of() == s[i].month_of();
            let j = choose|j: int| 0 <= j < p.len() && p[j] == k;
            assert(lm[j] == m);
        }
    }
    assert(lm.to_set() =~= sm.to_set());
}

} // verus!
