use vstd::prelude::*;

use crate::error::ChartError;
use crate::series::PRICE_SCALE;

verus! {

/// Margin, in ticks, left above the highest high and below the lowest low:
/// 25 price units.
pub const PADDING: i64 = 25 * PRICE_SCALE;

/// Whether `m` is the largest entry of `s`.
pub open spec fn is_max_of(m: int, s: Seq<i64>) -> bool {
    &&& exists|i: int| 0 <= i < s.len() && s[i] == m
    &&& forall|i: int| 0 <= i < s.len() ==> s[i] <= m
}

/// Whether `m` is the smallest entry of `s`.
pub open spec fn is_min_of(m: int, s: Seq<i64>) -> bool {
    &&& exists|i: int| 0 <= i < s.len() && s[i] == m
    &&& forall|i: int| 0 <= i < s.len() ==> m <= s[i]
}

/// The largest entry of a non-empty sequence.
fn max_price(s: &Vec<i64>) -> (r: i64)
    requires
        s@.len() > 0,
    ensures
        is_max_of(r as int, s@),
{
    let mut best = s[0];
    let mut i: usize = 1;
    while i < s.len()
        invariant
            1 <= i <= s@.len(),
            exists|k: int| 0 <= k < i && s@[k] == best,
            forall|k: int| 0 <= k < i ==> s@[k] <= best,
        decreases s@.len() - i,
    {
        if s[i] > best {
            best = s[i];
        }
        i = i + 1;
    }
    best
}

/// The smallest entry of a non-empty sequence.
fn min_price(s: &Vec<i64>) -> (r: i64)
    requires
        s@.len() > 0,
    ensures
        is_min_of(r as int, s@),
{
    let mut best = s[0];
    let mut i: usize = 1;
    while i < s.len()
        invariant
            1 <= i <= s@.len(),
            exists|k: int| 0 <= k < i && s@[k] == best,
            forall|k: int| 0 <= k < i ==> best <= s@[k],
        decreases s@.len() - i,
    {
        if s[i] < best {
            best = s[i];
        }
        i = i + 1;
    }
    best
}

/// The price axis bounds `(min(lows) - PADDING, max(highs) + PADDING)`, in
/// a type wide enough to hold them for any prices; fails with `EmptySeries`
/// when either sequence is empty.
pub fn price_range(highs: &Vec<i64>, lows: &Vec<i64>) -> (r: Result<(i128, i128), ChartError>)
    ensures
        highs@.len() == 0 || lows@.len() == 0 ==> r == Err::<(i128, i128), ChartError>(
            ChartError::EmptySeries,
        ),
        highs@.len() > 0 && lows@.len() > 0 ==> match r {
            Ok((lo, hi)) => is_min_of(lo + PADDING, lows@) && is_max_of(hi - PADDING, highs@),
            Err(_) => false,
        },
{
    if highs.len() == 0 || lows.len() == 0 {
        return Err(ChartError::EmptySeries);
    }
    let top = max_price(highs);
    let bottom = min_price(lows);
    Ok((bottom as i128 - PADDING as i128, top as i128 + PADDING as i128))
}

} // verus!
