//! Streaks: runs of consecutive days.
//!
//! A run is a stretch of days, each of which is among the given dates. The
//! current streak is the run that ends today, or yesterday where today is
//! not among the dates; the longest streak is the longest run there is.
//! Session days and habit completions are counted by the same rule.

use vstd::prelude::*;
use crate::date::Date;
use crate::timeline::{DatedSession, ascending, insert_day};

verus! {

/// The two streaks of a set of dates.
#[derive(Debug, Clone, Copy, PartialEq, Eq, Structural)]
pub struct Streaks {
    /// Days of the run that ends today or yesterday; 0 where neither day
    /// is among the dates.
    pub current: usize,
    /// Days of the longest run.
    pub longest: usize,
}

/// Whether the day numbered `d` is among the dates.
pub open spec fn on_day(dates: Seq<Date>, d: int) -> bool {
    exists|i: int| 0 <= i < dates.len() && (#[trigger] dates[i]).days == d
}

/// Whether the `len` days that end with the day numbered `end` are all
/// among the dates.
pub open spec fn is_run(dates: Seq<Date>, end: int, len: int) -> bool {
    forall|d: int| end - len < d <= end ==> #[trigger] on_day(dates, d)
}

/// Whether `k` is the length of the run that ends on the day numbered
/// `end` and cannot be extended further back.
pub open spec fn is_full_run(dates: Seq<Date>, end: int, k: int) -> bool {
    k >= 1 && is_run(dates, end, k) && !on_day(dates, end - k)
}

/// Whether `k` is the current streak as of the day numbered `today`.
pub open spec fn is_current_streak(dates: Seq<Date>, today: int, k: int) -> bool {
    if on_day(dates, today) {
        is_full_run(dates, today, k)
    } else if on_day(dates, today - 1) {
        is_full_run(dates, today - 1, k)
    } else {
        k == 0
    }
}

/// Whether `k` is the length of the longest run.
pub open spec fn is_longest_streak(dates: Seq<Date>, k: int) -> bool {
    &&& k >= 0
    &&& k > 0 ==> exists|end: int| #[trigger] is_run(dates, end, k)
    &&& forall|end: int, len: int| len > k ==> !#[trigger] is_run(dates, end, len)
}

/// A set of dates has one current streak.
pub proof fn law_current_streak_unique(dates: Seq<Date>, today: int, a: int, b: int)
    requires
        is_current_streak(dates, today, a),
        is_current_streak(dates, today, b),
    ensures
        a == b,
{
    let end = if on_day(dates, today) {
        today
    } else {
        today - 1
    };
    if on_day(dates, today) || on_day(dates, today - 1) {
        if a < b {
            assert(on_day(dates, end - a));
        } else if b < a {
            assert(on_day(dates, end - b));
        }
    }
}

/// A set of dates has one longest streak.
pub proof fn law_longest_streak_unique(dates: Seq<Date>, a: int, b: int)
    requires
        is_longest_streak(dates, a),
        is_longest_streak(dates, b),
    ensures
        a == b,
{
    if a < b {
        let end = choose|end: int| #[trigger] is_run(dates, end, b);
        assert(!is_run(dates, end, b));
    } else if b < a {
        let end = choose|end: int| #[trigger] is_run(dates, end, a);
        assert(!is_run(dates, end, a));
    }
}

/// The current streak is never longer than the longest.
pub proof fn law_current_within_longest(dates: Seq<Date>, today: int, current: int, longest: int)
    requires
        is_current_streak(dates, today, current),
        is_longest_streak(dates, longest),
    ensures
        0 <= current <= longest,
{
    if on_day(dates, today) {
        if current > longest {
            assert(!is_run(dates, today, current));
        }
    } else if on_day(dates, today - 1) {
        if current > longest {
            assert(!is_run(dates, today - 1, current));
        }
    }
}

/// Whether a list holds exactly the day numbers of the dates.
pub open spec fn lists_days(v: Seq<i32>, dates: Seq<Date>) -> bool {
    forall|x: i32| v.contains(x) <==> on_day(dates, x as int)
}

/// In a rising list, the length of the stretch of consecutive numbers that
/// ends at index `i`.
pub open spec fn run_at(v: Seq<i32>, i: int) -> int
    decreases i,
{
    if i <= 0 {
        1
    } else if v[i] == v[i - 1] + 1 {
        run_at(v, i - 1) + 1
    } else {
        1
    }
}

proof fn lemma_run_shape(v: Seq<i32>, i: int)
    requires
        ascending(v),
        0 <= i < v.len(),
    ensures
        1 <= run_at(v, i) <= i + 1,
        forall|j: int| 0 <= j < run_at(v, i) ==> #[trigger] v[i - j] == v[i] - j,
        i - run_at(v, i) + 1 == 0 || v[i - run_at(v, i)] + 1 < v[i - run_at(v, i) + 1],
    decreases i,
{
    if i > 0 {
        lemma_run_shape(v, i - 1);
        assert(v[i - 1] < v[i]);
        if v[i] == v[i - 1] + 1 {
            let r = run_at(v, i - 1);
            assert forall|j: int| 0 <= j < r + 1 implies #[trigger] v[i - j] == v[i] - j by {
                if j > 0 {
                    assert(v[(i - 1) - (j - 1)] == v[i - 1] - (j - 1));
                }
            }
        }
    }
}

proof fn lemma_run_cannot_grow(v: Seq<i32>, i: int)
    requires
        ascending(v),
        0 <= i < v.len(),
    ensures
        forall|t: int| 0 <= t < v.len() ==> #[trigger] v[t] != v[i] - run_at(v, i),
{
    lemma_run_shape(v, i);
    let r = run_at(v, i);
    let start = i - r + 1;
    assert(v[i - (r - 1)] == v[i] - (r - 1));
    assert forall|t: int| 0 <= t < v.len() implies #[trigger] v[t] != v[i] - r by {
        if t < start {
            if t < start - 1 {
                assert(v[t] < v[start - 1]);
            }
        } else if t > start {
            assert(v[start] < v[t]);
        }
    }
}

proof fn lemma_index_of(v: Seq<i32>, x: i32) -> (t: int)
    requires
        v.contains(x),
    ensures
        0 <= t < v.len(),
        v[t] == x,
{
    choose|t: int| 0 <= t < v.len() && v[t] == x
}

/// The stretch that ends at an index of the list is a full run of the dates.
proof fn lemma_full_run(v: Seq<i32>, dates: Seq<Date>, i: int)
    requires
        ascending(v),
        lists_days(v, dates),
        0 <= i < v.len(),
    ensures
        is_full_run(dates, v[i] as int, run_at(v, i)),
{
    lemma_run_shape(v, i);
    lemma_run_cannot_grow(v, i);
    let r = run_at(v, i);
    assert forall|d: int| v[i] - r < d <= v[i] implies #[trigger] on_day(dates, d) by {
        let j = v[i] - d;
        assert(v[i - j] == v[i] - j);
        assert(v.contains(v[i - j]));
    }
    if on_day(dates, v[i] - r) {
        let x = (v[i] - r) as i32;
        let w = choose|w: int| 0 <= w < dates.len() && (#[trigger] dates[w]).days == v[i] - r;
        assert(x == dates[w].days);
        assert(on_day(dates, x as int));
        assert(v.contains(x));
        let t = lemma_index_of(v, x);
        assert(false);
    }
}

/// No run of the dates is longer than the stretch of the list that ends
/// where the run ends.
proof fn lemma_run_within_stretch(v: Seq<i32>, dates: Seq<Date>, end: int, len: int) -> (t: int)
    requires
        ascending(v),
        lists_days(v, dates),
        len >= 1,
        is_run(dates, end, len),
    ensures
        0 <= t < v.len(),
        v[t] == end,
        len <= run_at(v, t),
{
    assert(on_day(dates, end));
    let w = choose|w: int| 0 <= w < dates.len() && (#[trigger] dates[w]).days == end;
    let x = dates[w].days;
    assert(on_day(dates, x as int));
    assert(v.contains(x));
    let t = lemma_index_of(v, x);
    lemma_full_run(v, dates, t);
    if len > run_at(v, t) {
        assert(on_day(dates, end - run_at(v, t)));
    }
    t
}

/// The day numbers of the dates, each once, rising.
pub fn distinct_days(dates: &Vec<Date>) -> (v: Vec<i32>)
    ensures
        ascending(v@),
        lists_days(v@, dates@),
        v@.len() <= dates@.len(),
{
    let mut v: Vec<i32> = Vec::new();
    let mut i: usize = 0;
    while i < dates.len()
        invariant
            i <= dates@.len(),
            v@.len() <= i,
            ascending(v@),
            lists_days(v@, dates@.take(i as int)),
        decreases dates@.len() - i,
    {
        let ghost before = v@;
        let ghost seen = dates@.take(i as int);
        let ghost next = dates@.take(i as int + 1);
        insert_day(&mut v, dates[i].days);
        proof {
            assert forall|x: i32| v@.contains(x) <==> on_day(next, x as int) by {
                if on_day(next, x as int) {
                    let w = choose|w: int| 0 <= w < next.len() && (#[trigger] next[w]).days == x;
                    if w < i {
                        assert(seen[w].days == x);
                    }
                }
                if on_day(seen, x as int) {
                    let w = choose|w: int| 0 <= w < seen.len() && (#[trigger] seen[w]).days == x;
                    assert(next[w].days == x);
                }
                if x == dates@[i as int].days {
                    assert(next[i as int].days == x);
                }
            }
        }
        i = i + 1;
    }
    proof {
        assert(dates@.take(dates@.len() as int) =~= dates@);
    }
    v
}

/// The current and the longest streak of a set of dates, given in any
/// order, as of `today`.
pub fn streaks_of(dates: &Vec<Date>, today: Date) -> (r: Streaks)
    ensures
        is_current_streak(dates@, today.days as int, r.current as int),
        is_longest_streak(dates@, r.longest as int),
        r.current <= r.longest <= dates@.len(),
{
    let v = distinct_days(dates);
    let today_n: i64 = today.days as i64;
    let mut best: usize = 0;
    let mut run: usize = 0;
    let mut to_today: usize = 0;
    let mut to_yesterday: usize = 0;
    let ghost mut best_at: int = 0;
    let ghost mut today_at: int = 0;
    let ghost mut yesterday_at: int = 0;
    let mut i: usize = 0;
    while i < v.len()
        invariant
            i <= v@.len(),
            ascending(v@),
            today_n == today.days,
            i > 0 ==> run == run_at(v@, i - 1),
            run <= i,
            best <= i,
            forall|t: int| 0 <= t < i ==> run_at(v@, t) <= best,
            i > 0 ==> 0 <= best_at < i && run_at(v@, best_at) == best,
            i == 0 ==> best == 0,
            to_today > 0 ==> 0 <= today_at < i && v@[today_at] == today_n && to_today == run_at(
                v@,
                today_at,
            ),
            to_today == 0 ==> forall|t: int| 0 <= t < i ==> v@[t] != today_n,
            to_yesterday > 0 ==> 0 <= yesterday_at < i && v@[yesterday_at] == today_n - 1
                && to_yesterday == run_at(v@, yesterday_at),
            to_yesterday == 0 ==> forall|t: int| 0 <= t < i ==> v@[t] != today_n - 1,
        decreases v@.len() - i,
    {
        proof {
            lemma_run_shape(v@, i as int);
        }
        if i > 0 && v[i - 1] as i64 + 1 == v[i] as i64 {
            run = run + 1;
        } else {
            run = 1;
        }
        if run > best {
            best = run;
            proof {
                best_at = i as int;
            }
        }
        if v[i] as i64 == today_n {
            to_today = run;
            proof {
                today_at = i as int;
            }
        }
        if v[i] as i64 == today_n - 1 {
            to_yesterday = run;
            proof {
                yesterday_at = i as int;
            }
        }
        i = i + 1;
    }
    let current = if to_today > 0 {
        to_today
    } else {
        to_yesterday
    };
    proof {
        let d = dates@;
        // the current streak
        if to_today > 0 {
            lemma_full_run(v@, d, today_at);
            assert(v@.contains(v@[today_at]));
        } else {
            if on_day(d, today_n as int) {
                assert(v@.contains(today.days));
                let t = lemma_index_of(v@, today.days);
                assert(false);
            }
            if to_yesterday > 0 {
                lemma_full_run(v@, d, yesterday_at);
                assert(v@.contains(v@[yesterday_at]));
            } else if on_day(d, today_n - 1) {
                let x = (today_n - 1) as i32;
                let w = choose|w: int| 0 <= w < d.len() && (#[trigger] d[w]).days == today_n - 1;
                assert(x == d[w].days);
                assert(v@.contains(x));
                let t = lemma_index_of(v@, x);
                assert(false);
            }
        }
        // the longest streak
        if best > 0 {
            lemma_full_run(v@, d, best_at);
            assert(is_run(d, v@[best_at] as int, best as int));
        }
        assert forall|end: int, len: int| len > best implies !#[trigger] is_run(d, end, len) by {
            if is_run(d, end, len) {
                let t = lemma_run_within_stretch(v@, d, end, len);
            }
        }
    }
    Streaks { current, longest: best }
}

/// The days of the sessions that have one, in the order of the sessions.
pub open spec fn session_dates(s: Seq<DatedSession>) -> Seq<Date>
    decreases s.len(),
{
    if s.len() == 0 {
        Seq::empty()
    } else {
        match s.last().day {
            Some(d) => session_dates(s.drop_last()).push(d),
            None => session_dates(s.drop_last()),
        }
    }
}

/// Collects the days of the sessions that have one.
pub fn dates_of(entries: &Vec<DatedSession>) -> (dates: Vec<Date>)
    ensures
        dates@ == session_dates(entries@),
{
    let mut dates: Vec<Date> = Vec::new();
    let mut i: usize = 0;
    while i < entries.len()
        invariant
            i <= entries@.len(),
            dates@ == session_dates(entries@.take(i as int)),
        decreases entries@.len() - i,
    {
        proof {
            let next = entries@.take(i as int + 1);
            assert(next.drop_last() =~= entries@.take(i as int));
            assert(next.last() == entries@[i as int]);
        }
        match entries[i].day {
            Some(d) => {
                dates.push(d);
            },
            None => {},
        }
        i = i + 1;
    }
    proof {
        assert(entries@.take(entries@.len() as int) =~= entries@);
    }
    dates
}

/// The streaks of the days on which sessions are dated, as of `today`.
pub fn calculate_streaks(entries: &Vec<DatedSession>, today: Date) -> (r: Streaks)
    ensures
        is_current_streak(session_dates(entries@), today.days as int, r.current as int),
        is_longest_streak(session_dates(entries@), r.longest as int),
{
    let dates = dates_of(entries);
    streaks_of(&dates, today)
}

/// The streaks of the days on which a habit was completed, as of `today`.
pub fn compute_habit_streaks(completions: &Vec<Date>, today: Date) -> (r: Streaks)
    ensures
        is_current_streak(completions@, today.days as int, r.current as int),
        is_longest_streak(completions@, r.longest as int),
{
    streaks_of(completions, today)
}

} // verus!
