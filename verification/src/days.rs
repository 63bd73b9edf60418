//! Figures taken day by day over a range of days.

use vstd::prelude::*;
use crate::timeline::{DatedSession, Measure, Pick, total, has_day, ascending};

verus! {

/// The minutes worked on the day numbered `d`.
pub open spec fn minutes_on(s: Seq<DatedSession>, d: int) -> int {
    total(s, Measure::Minutes, Pick::Window(d as i32, d as i32))
}

/// A figure that each day of a range adds to a sum.
#[derive(Debug, Clone, Copy, PartialEq, Eq, Structural)]
pub enum DayFigure {
    /// One for a day with a session, nothing for a day without.
    Active,
    /// The minutes worked on the day.
    Minutes,
    /// The square of the minutes worked on the day.
    SquaredMinutes,
}

/// What the day numbered `d` adds to a sum over days.
pub open spec fn day_figure(s: Seq<DatedSession>, d: int, f: DayFigure) -> int {
    match f {
        DayFigure::Active => if has_day(s, d) {
            1
        } else {
            0
        },
        DayFigure::Minutes => minutes_on(s, d),
        DayFigure::SquaredMinutes => minutes_on(s, d) * minutes_on(s, d),
    }
}

/// The sum of a figure over the days `lo ..= hi`.
pub open spec fn over_days(s: Seq<DatedSession>, lo: int, hi: int, f: DayFigure) -> int
    decreases hi - lo + 1,
{
    if hi < lo {
        0
    } else {
        over_days(s, lo, hi - 1, f) + day_figure(s, hi, f)
    }
}

/// The sum of a figure over the listed days.
pub open spec fn over_list(s: Seq<DatedSession>, days: Seq<i32>, f: DayFigure) -> int
    decreases days.len(),
{
    if days.len() == 0 {
        0
    } else {
        over_list(s, days.drop_last(), f) + day_figure(s, days.last() as int, f)
    }
}

/// A total over a window that holds no picked session is zero.
pub proof fn lemma_total_of_none(s: Seq<DatedSession>, m: Measure, p: Pick)
    requires
        forall|i: int| 0 <= i < s.len() ==> !crate::timeline::picks(p, #[trigger] s[i]),
    ensures
        total(s, m, p) == 0,
    decreases s.len(),
{
    if s.len() > 0 {
        assert(!crate::timeline::picks(p, s[s.len() - 1]));
        assert forall|i: int| 0 <= i < s.drop_last().len() implies !crate::timeline::picks(
            p,
            #[trigger] s.drop_last()[i],
        ) by {
            assert(s.drop_last()[i] == s[i]);
        }
        lemma_total_of_none(s.drop_last(), m, p);
    }
}

/// A day without a session adds nothing to any sum over days.
pub proof fn lemma_idle_day(s: Seq<DatedSession>, d: i32, f: DayFigure)
    requires
        !has_day(s, d as int),
    ensures
        day_figure(s, d as int, f) == 0,
{
    let p = Pick::Window(d, d);
    assert forall|i: int| 0 <= i < s.len() implies !crate::timeline::picks(p, #[trigger] s[i]) by {
        if crate::timeline::picks(p, s[i]) {
            assert(s[i].dated_within(d as int, d as int));
        }
    }
    lemma_total_of_none(s, Measure::Minutes, p);
}

/// Summing over the rising list of a range's active days is summing over
/// the range.
pub proof fn lemma_list_is_range(s: Seq<DatedSession>, days: Seq<i32>, lo: i32, hi: int, f: DayFigure)
    requires
        ascending(days),
        lo - 1 <= hi <= i32::MAX,
        forall|d: i32| days.contains(d) <==> lo <= d <= hi && has_day(s, d as int),
    ensures
        over_list(s, days, f) == over_days(s, lo as int, hi, f),
    decreases hi - lo + 1,
{
    if hi < lo {
        if days.len() > 0 {
            assert(days.contains(days[0]));
        }
    } else {
        let top = hi as i32;
        if days.len() > 0 && days.last() == top {
            let rest = days.drop_last();
            assert(days.contains(top));
            assert forall|d: i32| rest.contains(d) <==> lo <= d <= hi - 1 && has_day(
                s,
                d as int,
            ) by {
                if rest.contains(d) {
                    let j = choose|j: int| 0 <= j < rest.len() && rest[j] == d;
                    assert(days[j] == d);
                    assert(days.contains(d));
                    assert(days[j] < days[days.len() - 1]);
                }
                if lo <= d <= hi - 1 && has_day(s, d as int) {
                    assert(days.contains(d));
                    let j = choose|j: int| 0 <= j < days.len() && days[j] == d;
                    assert(j < days.len() - 1);
                    assert(rest[j] == d);
                }
            }
            assert(ascending(rest)) by {
                assert forall|i: int, j: int| 0 <= i < j < rest.len() implies rest[i] < rest[j] by {
                    assert(days[i] < days[j]);
                }
            }
            lemma_list_is_range(s, rest, lo, hi - 1, f);
        } else {
            if has_day(s, hi) {
                assert(days.contains(top));
                let j = choose|j: int| 0 <= j < days.len() && days[j] == top;
                if j < days.len() - 1 {
                    assert(days[j] < days[days.len() - 1]);
                    assert(days.contains(days[days.len() - 1]));
                }
                assert(false);
            }
            lemma_idle_day(s, top, f);
            assert forall|d: i32| days.contains(d) <==> lo <= d <= hi - 1 && has_day(
                s,
                d as int,
            ) by {
                if days.contains(d) && d == top {
                    assert(has_day(s, hi));
                }
            }
            lemma_list_is_range(s, days, lo, hi - 1, f);
        }
    }
}

/// A window's total is that of its earlier days plus that of its last day.
pub proof fn lemma_window_split(s: Seq<DatedSession>, m: Measure, lo: i32, hi: i32)
    requires
        lo <= hi,
        i32::MIN < hi,
    ensures
        total(s, m, Pick::Window(lo, hi)) == total(s, m, Pick::Window(lo, (hi - 1) as i32)) + total(
            s,
            m,
            Pick::Window(hi, hi),
        ),
    decreases s.len(),
{
    if s.len() > 0 {
        lemma_window_split(s.drop_last(), m, lo, hi);
    }
}

/// The minutes of a window are the minutes of its days.
pub proof fn lemma_minutes_by_day(s: Seq<DatedSession>, lo: i32, hi: int)
    requires
        lo - 1 <= hi <= i32::MAX,
    ensures
        lo <= hi ==> over_days(s, lo as int, hi, DayFigure::Minutes) == total(
            s,
            Measure::Minutes,
            Pick::Window(lo, hi as i32),
        ),
        hi < lo ==> over_days(s, lo as int, hi, DayFigure::Minutes) == 0,
    decreases hi - lo + 1,
{
    if hi >= lo {
        lemma_minutes_by_day(s, lo, hi - 1);
        if hi > lo {
            lemma_window_split(s, Measure::Minutes, lo, hi as i32);
        }
    }
}

/// The sum, over the listed days, of the squared distance of the day's
/// minutes from `q`.
pub open spec fn centered(s: Seq<DatedSession>, days: Seq<i32>, q: int) -> int
    decreases days.len(),
{
    if days.len() == 0 {
        0
    } else {
        centered(s, days.drop_last(), q) + (minutes_on(s, days.last() as int) - q) * (minutes_on(
            s,
            days.last() as int,
        ) - q)
    }
}

/// The squared distances from `q` add up to the squares, less twice `q`
/// times the sum, plus `q` squared for each day.
pub proof fn lemma_centered_identity(s: Seq<DatedSession>, days: Seq<i32>, q: int)
    ensures
        centered(s, days, q) == over_list(s, days, DayFigure::SquaredMinutes) - 2 * q * over_list(
            s,
            days,
            DayFigure::Minutes,
        ) + days.len() * (q * q),
    decreases days.len(),
{
    if days.len() > 0 {
        let rest = days.drop_last();
        lemma_centered_identity(s, rest, q);
        let t = minutes_on(s, days.last() as int);
        let c0 = centered(s, rest, q);
        let q0 = over_list(s, rest, DayFigure::SquaredMinutes);
        let m0 = over_list(s, rest, DayFigure::Minutes);
        let n0 = rest.len() as int;
        assert(c0 + (t - q) * (t - q) == (q0 + t * t) - 2 * q * (m0 + t) + (n0 + 1) * (q * q))
            by (nonlinear_arith)
            requires
                c0 == q0 - 2 * q * m0 + n0 * (q * q),
        ;
    } else {
        assert(0 * (q * q) == 0) by (nonlinear_arith);
        assert(2 * q * 0 == 0) by (nonlinear_arith);
    }
}

/// The sum of the squared distances is no less than any one of them.
pub proof fn lemma_centered_covers(s: Seq<DatedSession>, days: Seq<i32>, q: int, k: int)
    requires
        0 <= k < days.len(),
    ensures
        centered(s, days, q) >= (minutes_on(s, days[k] as int) - q) * (minutes_on(
            s,
            days[k] as int,
        ) - q),
    decreases days.len(),
{
    let rest = days.drop_last();
    let t = minutes_on(s, days.last() as int);
    assert((t - q) * (t - q) >= 0) by (nonlinear_arith);
    lemma_centered_nonnegative(s, rest, q);
    if k < days.len() - 1 {
        lemma_centered_covers(s, rest, q, k);
        assert(rest[k] == days[k]);
    }
}

/// A sum of squared distances is not negative.
pub proof fn lemma_centered_nonnegative(s: Seq<DatedSession>, days: Seq<i32>, q: int)
    ensures
        centered(s, days, q) >= 0,
    decreases days.len(),
{
    if days.len() > 0 {
        lemma_centered_nonnegative(s, days.drop_last(), q);
        let t = minutes_on(s, days.last() as int);
        assert((t - q) * (t - q) >= 0) by (nonlinear_arith);
    }
}

/// In a rising list each number is as far above the first as its place is.
pub proof fn lemma_rising_gap(v: Seq<i32>, i: int)
    requires
        ascending(v),
        0 <= i < v.len(),
    ensures
        v[i] - v[0] >= i,
    decreases i,
{
    if i > 0 {
        lemma_rising_gap(v, i - 1);
        assert(v[i - 1] < v[i]);
    }
}

/// A rising list of day numbers is no longer than there are day numbers.
pub proof fn lemma_rising_length(v: Seq<i32>)
    requires
        ascending(v),
    ensures
        v.len() <= 0x1_0000_0000,
{
    if v.len() > 0 {
        lemma_rising_gap(v, v.len() - 1);
    }
}

/// A list of active days adds up to its length when each counts one.
pub proof fn lemma_active_is_length(s: Seq<DatedSession>, days: Seq<i32>)
    requires
        forall|k: int| 0 <= k < days.len() ==> has_day(s, #[trigger] days[k] as int),
    ensures
        over_list(s, days, DayFigure::Active) == days.len(),
    decreases days.len(),
{
    if days.len() > 0 {
        assert(has_day(s, days[days.len() - 1] as int));
        assert forall|k: int| 0 <= k < days.drop_last().len() implies has_day(
            s,
            #[trigger] days.drop_last()[k] as int,
        ) by {
            assert(days.drop_last()[k] == days[k]);
        }
        lemma_active_is_length(s, days.drop_last());
    }
}

} // verus!
