//! The facts of a history of sessions that the achievements are judged by:
//! how many sessions, days and weeks there are, and whether the work was
//! paced, sustainable and left a weekend free.

use vstd::prelude::*;
use crate::achievements::AchievementFacts;
use crate::date::{weekday_of, week_of};
use crate::days::minutes_on;
use crate::models::PayType;
use crate::timeline::{
    DatedSession, Measure, Pick, total, longest, has_day, ascending, active_days, minutes_of,
    longest_of,
};

verus! {

/// No session of a paced week is longer than this many minutes.
pub const PACED_SESSION_MINUTES: u16 = 360;

/// Seven days of a sustainable week have fewer minutes than this: eight
/// hours a day.
pub const SUSTAINABLE_WEEK_MINUTES: u128 = 3360;

/// A human weekend has fewer minutes than this.
pub const HUMAN_WEEKEND_MINUTES: u128 = 180;

/// Whether a list holds the days on which sessions are dated, each once,
/// earliest first.
pub open spec fn is_day_list(v: Seq<i32>, s: Seq<DatedSession>) -> bool {
    ascending(v) && forall|d: i32| v.contains(d) <==> has_day(s, d as int)
}

/// The days on which sessions are dated, each once, earliest first.
pub open spec fn day_list(s: Seq<DatedSession>) -> Seq<i32> {
    choose|v: Seq<i32>| is_day_list(v, s)
}

proof fn lemma_rising_lists_agree(a: Seq<i32>, b: Seq<i32>)
    requires
        ascending(a),
        ascending(b),
        forall|d: i32| a.contains(d) <==> b.contains(d),
    ensures
        a == b,
    decreases a.len(),
{
    if a.len() == 0 {
        if b.len() > 0 {
            assert(b.contains(b[0]));
        }
        assert(a =~= b);
    } else {
        let x = a.last();
        assert(a.contains(x));
        assert(b.contains(x));
        let y = b.last();
        assert(b.contains(y));
        assert(a.contains(y));
        let i = choose|i: int| 0 <= i < b.len() && b[i] == x;
        let j = choose|j: int| 0 <= j < a.len() && a[j] == y;
        if i < b.len() - 1 {
            assert(b[i] < b[b.len() - 1]);
        }
        if j < a.len() - 1 {
            assert(a[j] < a[a.len() - 1]);
        }
        assert(x == y);
        let a0 = a.drop_last();
        let b0 = b.drop_last();
        assert forall|d: i32| a0.contains(d) <==> b0.contains(d) by {
            if a0.contains(d) {
                let k = choose|k: int| 0 <= k < a0.len() && a0[k] == d;
                assert(a[k] == d && a[k] < a[a.len() - 1]);
                assert(a.contains(d));
                let m = choose|m: int| 0 <= m < b.len() && b[m] == d;
                assert(m < b.len() - 1);
                assert(b0[m] == d);
            }
            if b0.contains(d) {
                let k = choose|k: int| 0 <= k < b0.len() && b0[k] == d;
                assert(b[k] == d && b[k] < b[b.len() - 1]);
                assert(b.contains(d));
                let m = choose|m: int| 0 <= m < a.len() && a[m] == d;
                assert(m < a.len() - 1);
                assert(a0[m] == d);
            }
        }
        assert(ascending(a0)) by {
            assert forall|p: int, q: int| 0 <= p < q < a0.len() implies a0[p] < a0[q] by {
                assert(a[p] < a[q]);
            }
        }
        assert(ascending(b0)) by {
            assert forall|p: int, q: int| 0 <= p < q < b0.len() implies b0[p] < b0[q] by {
                assert(b[p] < b[q]);
            }
        }
        lemma_rising_lists_agree(a0, b0);
        assert(a =~= a0.push(x));
        assert(b =~= b0.push(y));
    }
}

/// There is one list of the days on which sessions are dated.
pub proof fn lemma_day_list(v: Seq<i32>, s: Seq<DatedSession>)
    requires
        is_day_list(v, s),
    ensures
        v == day_list(s),
{
    lemma_rising_lists_agree(v, day_list(s));
}

/// Lists the days on which sessions are dated, each once, earliest first.
pub fn session_days(entries: &Vec<DatedSession>) -> (v: Vec<i32>)
    ensures
        v@ == day_list(entries@),
        is_day_list(v@, entries@),
        v@.len() <= entries@.len(),
{
    let v = active_days(entries, i32::MIN, i32::MAX);
    proof {
        lemma_day_list(v@, entries@);
    }
    v
}

/// Paced: there are seven days with sessions, and no session from the
/// seventh latest of them on is longer than six hours.
pub open spec fn paced_week(s: Seq<DatedSession>) -> bool {
    let v = day_list(s);
    v.len() >= 7 && longest(s, Pick::Window(v[v.len() - 7], i32::MAX)) <= PACED_SESSION_MINUTES
}

/// Whether the sessions were paced over the seven latest days with
/// sessions.
pub fn has_paced_week(entries: &Vec<DatedSession>) -> (r: bool)
    ensures
        r == paced_week(entries@),
{
    let v = session_days(entries);
    if v.len() < 7 {
        return false;
    }
    let from = v[v.len() - 7];
    longest_of(entries, &Pick::Window(from, i32::MAX)) <= PACED_SESSION_MINUTES
}

/// The minutes of the seven listed days from place `k` on.
pub open spec fn seven_days_minutes(s: Seq<DatedSession>, v: Seq<i32>, k: int) -> int {
    minutes_on(s, v[k] as int) + minutes_on(s, v[k + 1] as int) + minutes_on(s, v[k + 2] as int)
        + minutes_on(s, v[k + 3] as int) + minutes_on(s, v[k + 4] as int) + minutes_on(
        s,
        v[k + 5] as int,
    ) + minutes_on(s, v[k + 6] as int)
}

/// Sustainable: some seven days with sessions, one after the other in the
/// list of such days, average under eight hours.
pub open spec fn sustainable_week(s: Seq<DatedSession>) -> bool {
    let v = day_list(s);
    exists|k: int|
        0 <= k <= v.len() - 7 && #[trigger] seven_days_minutes(s, v, k) < SUSTAINABLE_WEEK_MINUTES
}

/// Whether some seven days with sessions in a row average under eight
/// hours a day.
pub fn has_sustainable_week(entries: &Vec<DatedSession>) -> (r: bool)
    ensures
        r == sustainable_week(entries@),
{
    let v = session_days(entries);
    let mut daily: Vec<u128> = Vec::new();
    let mut j: usize = 0;
    while j < v.len()
        invariant
            j <= v@.len(),
            daily@.len() == j,
            forall|i: int|
                0 <= i < j ==> #[trigger] daily@[i] == minutes_on(entries@, v@[i] as int)
                    && daily@[i] < 0x1_0000_0000_0000_0000_0000,
        decreases v@.len() - j,
    {
        daily.push(minutes_of(entries, &Pick::Window(v[j], v[j])));
        j = j + 1;
    }
    if v.len() < 7 {
        return false;
    }
    let mut k: usize = 0;
    while k <= v.len() - 7
        invariant
            v@.len() >= 7,
            v@ == day_list(entries@),
            k <= v@.len() - 6,
            daily@.len() == v@.len(),
            forall|i: int|
                0 <= i < v@.len() ==> #[trigger] daily@[i] == minutes_on(entries@, v@[i] as int)
                    && daily@[i] < 0x1_0000_0000_0000_0000_0000,
            forall|i: int|
                0 <= i < k ==> #[trigger] seven_days_minutes(entries@, v@, i)
                    >= SUSTAINABLE_WEEK_MINUTES,
        decreases v@.len() - 6 - k,
    {
        let sum: u128 = daily[k] + daily[k + 1] + daily[k + 2] + daily[k + 3] + daily[k + 4]
            + daily[k + 5] + daily[k + 6];
        assert(sum == seven_days_minutes(entries@, v@, k as int));
        if sum < SUSTAINABLE_WEEK_MINUTES {
            return true;
        }
        k = k + 1;
    }
    false
}

/// Whether the day numbered `d` is a Saturday or a Sunday.
pub open spec fn is_weekend(d: int) -> bool {
    weekday_of(d) == 0 || weekday_of(d) == 6
}

/// The minutes worked on the day numbered `d`, nothing where there is no
/// such day.
pub open spec fn minutes_if_day(s: Seq<DatedSession>, d: int) -> int {
    if i32::MIN <= d <= i32::MAX {
        minutes_on(s, d)
    } else {
        0
    }
}

/// The minutes of the weekend that the day numbered `d` belongs to: those
/// of the Saturday and of the Sunday after it.
pub open spec fn weekend_minutes(s: Seq<DatedSession>, d: int) -> int {
    if weekday_of(d) == 6 {
        minutes_if_day(s, d) + minutes_if_day(s, d + 1)
    } else {
        minutes_if_day(s, d - 1) + minutes_if_day(s, d)
    }
}

/// Human: some weekend with a session has under three hours.
pub open spec fn human_weekend(s: Seq<DatedSession>) -> bool {
    exists|d: i32|
        #[trigger] has_day(s, d as int) && is_weekend(d as int) && weekend_minutes(s, d as int)
            < HUMAN_WEEKEND_MINUTES
}

fn minutes_on_day(entries: &Vec<DatedSession>, d: i64) -> (r: u128)
    ensures
        r == minutes_if_day(entries@, d as int),
        r < 0x1_0000_0000_0000_0000_0000,
{
    if d < i32::MIN as i64 || d > i32::MAX as i64 {
        0
    } else {
        minutes_of(entries, &Pick::Window(d as i32, d as i32))
    }
}

/// Whether some weekend with a session has under three hours.
pub fn has_human_weekend(entries: &Vec<DatedSession>) -> (r: bool)
    ensures
        r == human_weekend(entries@),
{
    let v = session_days(entries);
    let mut j: usize = 0;
    while j < v.len()
        invariant
            j <= v@.len(),
            is_day_list(v@, entries@),
            forall|i: int|
                0 <= i < j ==> !(is_weekend(#[trigger] v@[i] as int) && weekend_minutes(
                    entries@,
                    v@[i] as int,
                ) < HUMAN_WEEKEND_MINUTES),
        decreases v@.len() - j,
    {
        let d = v[j];
        let w = crate::date::Date { days: d }.weekday();
        if w == 6 || w == 0 {
            let first: i64 = if w == 6 {
                d as i64
            } else {
                d as i64 - 1
            };
            let sum = minutes_on_day(entries, first) + minutes_on_day(entries, first + 1);
            if sum < HUMAN_WEEKEND_MINUTES {
                proof {
                    assert(v@.contains(d));
                    assert(has_day(entries@, d as int));
                }
                return true;
            }
        }
        j = j + 1;
    }
    proof {
        if human_weekend(entries@) {
            let d = choose|d: i32|
                #[trigger] has_day(entries@, d as int) && is_weekend(d as int) && weekend_minutes(
                    entries@,
                    d as int,
                ) < HUMAN_WEEKEND_MINUTES;
            assert(v@.contains(d));
            let i = choose|i: int| 0 <= i < v@.len() && v@[i] == d;
            assert(is_weekend(v@[i] as int));
            assert(false);
        }
    }
    false
}

/// The days among the first `n` of a rising list that are the first of
/// their week in the list: as many as there are weeks among them.
pub open spec fn weeks_among(v: Seq<i32>, n: int) -> int
    decreases n,
{
    if n <= 0 {
        0
    } else if n == 1 || week_of(v[n - 1] as int) != week_of(v[n - 2] as int) {
        weeks_among(v, n - 1) + 1
    } else {
        weeks_among(v, n - 1)
    }
}

/// The calendar weeks, Monday to Sunday, with a session.
pub open spec fn session_weeks(s: Seq<DatedSession>) -> int {
    weeks_among(day_list(s), day_list(s).len() as int)
}

/// Counts the calendar weeks with a session.
pub fn count_distinct_session_weeks(entries: &Vec<DatedSession>) -> (r: usize)
    ensures
        r == session_weeks(entries@),
{
    let v = session_days(entries);
    let mut weeks: usize = 0;
    let mut j: usize = 0;
    while j < v.len()
        invariant
            j <= v@.len(),
            weeks <= j,
            weeks == weeks_among(v@, j as int),
        decreases v@.len() - j,
    {
        let this = crate::date::Date { days: v[j] }.week();
        if j == 0 || this != (crate::date::Date { days: v[j - 1] }).week() {
            weeks = weeks + 1;
        }
        j = j + 1;
    }
    weeks
}

/// Counts the days with a session.
pub fn count_distinct_session_days(entries: &Vec<DatedSession>) -> (r: usize)
    ensures
        r == day_list(entries@).len(),
{
    session_days(entries).len()
}

/// Whether a session is paid: hourly or fixed, with a rate or a fee above
/// nothing.
pub open spec fn is_paid(e: DatedSession) -> bool {
    (e.session.pay_type == Some(PayType::Hourly) || e.session.pay_type == Some(PayType::Fixed))
        && ((e.session.hourly_rate matches Some(r) && r > 0) || (e.session.fixed_amount matches Some(
        a,
    ) && a > 0))
}

/// Whether some session is paid.
pub fn has_paid_session(entries: &Vec<DatedSession>) -> (r: bool)
    ensures
        r == exists|i: int| 0 <= i < entries@.len() && is_paid(#[trigger] entries@[i]),
{
    let mut i: usize = 0;
    while i < entries.len()
        invariant
            i <= entries@.len(),
            forall|j: int| 0 <= j < i ==> !is_paid(#[trigger] entries@[j]),
        decreases entries@.len() - i,
    {
        let e = &entries[i].session;
        let by_type = match e.pay_type {
            Some(PayType::Hourly) => true,
            Some(PayType::Fixed) => true,
            _ => false,
        };
        let rate = match e.hourly_rate {
            Some(r) => r > 0,
            None => false,
        };
        let fee = match e.fixed_amount {
            Some(a) => a > 0,
            None => false,
        };
        if by_type && (rate || fee) {
            return true;
        }
        i = i + 1;
    }
    false
}

/// Gathers the facts that the achievements are judged by: those of the
/// sessions, and those of the use of the analytics and the advisor, which
/// are handed in as they were counted.
pub fn gather_facts(
    entries: &Vec<DatedSession>,
    analytics_view_days: u64,
    analytics_ranges: u64,
    analytics_and_advisor_same_day: bool,
) -> (f: AchievementFacts)
    ensures
        f.total_sessions == entries@.len(),
        f.distinct_session_days == day_list(entries@).len(),
        f.distinct_session_weeks == session_weeks(entries@),
        f.total_minutes == total(entries@, Measure::Minutes, Pick::All),
        f.has_paid_session == exists|i: int|
            0 <= i < entries@.len() && is_paid(#[trigger] entries@[i]),
        f.paced_week == paced_week(entries@),
        f.sustainable_week == sustainable_week(entries@),
        f.human_weekend == human_weekend(entries@),
        f.analytics_view_days == analytics_view_days,
        f.analytics_ranges == analytics_ranges,
        f.analytics_and_advisor_same_day == analytics_and_advisor_same_day,
{
    AchievementFacts {
        total_sessions: entries.len() as u64,
        distinct_session_days: count_distinct_session_days(entries) as u64,
        distinct_session_weeks: count_distinct_session_weeks(entries) as u64,
        total_minutes: minutes_of(entries, &Pick::All),
        has_paid_session: has_paid_session(entries),
        analytics_view_days,
        analytics_ranges,
        analytics_and_advisor_same_day,
        paced_week: has_paced_week(entries),
        sustainable_week: has_sustainable_week(entries),
        human_weekend: has_human_weekend(entries),
    }
}

} // verus!
