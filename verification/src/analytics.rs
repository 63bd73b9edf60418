//! The analytics of a range of days: a summary, the hours and pay of each
//! day, of each category and of each weekday; and the pay totals and weekly
//! averages shown on the dashboard.

use vstd::prelude::*;
use vstd::string::*;
use crate::date::Date;
use crate::models::SessionType;
use crate::text::same_text;
use crate::timeline::{
    DatedSession, Measure, Pick, total, longest, picks, has_day, total_of, minutes_of,
    count_of, longest_of, active_days, is_picked,
};

verus! {

/// The colour of a category whose session type is gone.
pub open spec fn default_color() -> Seq<char> {
    "#6366F1"@
}

/// The figures of a whole range.
#[derive(Debug, Clone, Copy, PartialEq, Eq, Structural)]
pub struct AnalyticsSummary {
    pub total_minutes: u128,
    pub total_sessions: usize,
    /// The mean duration of a session in minutes, rounded down; 0 without
    /// sessions.
    pub avg_session_minutes: u128,
    /// The longest session in minutes; 0 without sessions.
    pub longest_session: u16,
    /// Cents earned.
    pub total_pay: u128,
}

/// The figures of one day.
#[derive(Debug, Clone, Copy, PartialEq, Eq, Structural)]
pub struct DailyHours {
    pub date: Date,
    pub minutes: u128,
    /// Cents earned.
    pub pay: u128,
}

/// The figures of one category.
#[derive(Debug, Clone)]
pub struct CategoryBreakdown {
    pub category: String,
    pub color: String,
    pub minutes: u128,
    pub sessions: usize,
    /// Cents earned.
    pub pay: u128,
}

/// The figures of one weekday.
#[derive(Debug, Clone)]
pub struct WeekdayBreakdown {
    /// `Sun`, `Mon`, and so on.
    pub weekday: String,
    pub minutes: u128,
    pub sessions: usize,
}

/// The analytics of a range of days.
#[derive(Debug, Clone)]
pub struct AnalyticsData {
    pub summary: AnalyticsSummary,
    /// One row for each day with a session, earliest first.
    pub daily_hours: Vec<DailyHours>,
    /// One row for each category with a session; their order says nothing.
    pub category_breakdown: Vec<CategoryBreakdown>,
    /// Seven rows, Sunday first.
    pub weekday_breakdown: Vec<WeekdayBreakdown>,
}

/// The short name of a weekday, Sunday = 0.
pub open spec fn weekday_name(w: int) -> Seq<char> {
    if w == 0 {
        "Sun"@
    } else if w == 1 {
        "Mon"@
    } else if w == 2 {
        "Tue"@
    } else if w == 3 {
        "Wed"@
    } else if w == 4 {
        "Thu"@
    } else if w == 5 {
        "Fri"@
    } else {
        "Sat"@
    }
}

fn weekday_label(w: u8) -> (r: String)
    ensures
        r@ == weekday_name(w as int),
{
    if w == 0 {
        "Sun".to_string()
    } else if w == 1 {
        "Mon".to_string()
    } else if w == 2 {
        "Tue".to_string()
    } else if w == 3 {
        "Wed".to_string()
    } else if w == 4 {
        "Thu".to_string()
    } else if w == 5 {
        "Fri".to_string()
    } else {
        "Sat".to_string()
    }
}

/// The summary of the sessions dated from `lo` to `hi`.
pub open spec fn summary_of(s: Seq<DatedSession>, lo: i32, hi: i32) -> AnalyticsSummary {
    let w = Pick::Window(lo, hi);
    let minutes = total(s, Measure::Minutes, w);
    let sessions = total(s, Measure::Sessions, w);
    AnalyticsSummary {
        total_minutes: minutes as u128,
        total_sessions: sessions as usize,
        avg_session_minutes: if sessions > 0 {
            (minutes / sessions) as u128
        } else {
            0
        },
        longest_session: longest(s, w) as u16,
        total_pay: total(s, Measure::Pay, w) as u128,
    }
}

/// The sum of a measure over the seven weekdays of a window.
pub open spec fn over_weekdays(s: Seq<DatedSession>, m: Measure, lo: i32, hi: i32) -> int {
    total(s, m, Pick::Weekday(lo, hi, 0)) + total(s, m, Pick::Weekday(lo, hi, 1)) + total(
        s,
        m,
        Pick::Weekday(lo, hi, 2),
    ) + total(s, m, Pick::Weekday(lo, hi, 3)) + total(s, m, Pick::Weekday(lo, hi, 4)) + total(
        s,
        m,
        Pick::Weekday(lo, hi, 5),
    ) + total(s, m, Pick::Weekday(lo, hi, 6))
}

/// Every session of a window falls on one weekday, so the seven weekdays
/// add up to the window.
pub proof fn lemma_weekdays_add_up(s: Seq<DatedSession>, m: Measure, lo: i32, hi: i32)
    ensures
        over_weekdays(s, m, lo, hi) == total(s, m, Pick::Window(lo, hi)),
    decreases s.len(),
{
    if s.len() > 0 {
        lemma_weekdays_add_up(s.drop_last(), m, lo, hi);
        let e = s.last();
        if e.dated_within(lo as int, hi as int) {
            let w = crate::date::weekday_of(e.day.unwrap().days as int);
            assert(0 <= w < 7);
        }
    }
}

/// The row of a weekday.
pub open spec fn weekday_row_of(
    row: WeekdayBreakdown,
    s: Seq<DatedSession>,
    lo: i32,
    hi: i32,
    w: int,
) -> bool {
    &&& row.weekday@ == weekday_name(w)
    &&& row.minutes == total(s, Measure::Minutes, Pick::Weekday(lo, hi, w as u8))
    &&& row.sessions == total(s, Measure::Sessions, Pick::Weekday(lo, hi, w as u8))
}

/// Whether the rows are those of the seven weekdays, Sunday first.
pub open spec fn weekday_rows_of(
    rows: Seq<WeekdayBreakdown>,
    s: Seq<DatedSession>,
    lo: i32,
    hi: i32,
) -> bool {
    &&& rows.len() == 7
    &&& forall|w: int| 0 <= w < 7 ==> weekday_row_of(#[trigger] rows[w], s, lo, hi, w)
}

/// The hours and sessions of each weekday of a window.
pub fn weekday_breakdown(entries: &Vec<DatedSession>, lo: i32, hi: i32) -> (rows: Vec<
    WeekdayBreakdown,
>)
    ensures
        weekday_rows_of(rows@, entries@, lo, hi),
{
    let mut rows: Vec<WeekdayBreakdown> = Vec::new();
    let mut w: u8 = 0;
    while w < 7
        invariant
            w <= 7,
            rows@.len() == w,
            forall|k: int| 0 <= k < w ==> weekday_row_of(#[trigger] rows@[k], entries@, lo, hi, k),
        decreases 7 - w,
    {
        let p = Pick::Weekday(lo, hi, w);
        let minutes = minutes_of(entries, &p);
        let sessions = count_of(entries, Measure::Sessions, &p);
        rows.push(WeekdayBreakdown { weekday: weekday_label(w), minutes, sessions });
        w = w + 1;
    }
    rows
}

/// The row of a day.
pub open spec fn daily_row_of(row: DailyHours, s: Seq<DatedSession>) -> bool {
    &&& row.minutes == total(s, Measure::Minutes, Pick::Window(row.date.days, row.date.days))
    &&& row.pay == total(s, Measure::Pay, Pick::Window(row.date.days, row.date.days))
}

/// Whether the rows are those of the days of a window on which a session
/// is dated: one row for each such day, earliest first.
pub open spec fn daily_rows_of(rows: Seq<DailyHours>, s: Seq<DatedSession>, lo: i32, hi: i32) -> bool {
    &&& forall|j: int, k: int| 0 <= j < k < rows.len() ==> rows[j].date.days < rows[k].date.days
    &&& forall|k: int|
        0 <= k < rows.len() ==> lo <= (#[trigger] rows[k]).date.days <= hi && has_day(
            s,
            rows[k].date.days as int,
        ) && daily_row_of(rows[k], s)
    &&& forall|d: i32|
        lo <= d <= hi && has_day(s, d as int) ==> exists|k: int|
            0 <= k < rows.len() && (#[trigger] rows[k]).date.days == d
}

/// The hours and pay of each day of a window.
pub fn daily_hours(entries: &Vec<DatedSession>, lo: i32, hi: i32) -> (rows: Vec<DailyHours>)
    ensures
        daily_rows_of(rows@, entries@, lo, hi),
{
    let days = active_days(entries, lo, hi);
    let mut rows: Vec<DailyHours> = Vec::new();
    let mut k: usize = 0;
    while k < days.len()
        invariant
            k <= days@.len(),
            rows@.len() == k,
            forall|j: int|
                0 <= j < k ==> (#[trigger] rows@[j]).date.days == days@[j] && daily_row_of(
                    rows@[j],
                    entries@,
                ),
        decreases days@.len() - k,
    {
        let d = days[k];
        let p = Pick::Window(d, d);
        let minutes = minutes_of(entries, &p);
        let pay = total_of(entries, Measure::Pay, &p);
        rows.push(DailyHours { date: Date { days: d }, minutes, pay });
        k = k + 1;
    }
    proof {
        assert forall|k: int| 0 <= k < rows@.len() implies lo <= (#[trigger] rows@[k]).date.days
            <= hi && has_day(entries@, rows@[k].date.days as int) by {
            assert(days@.contains(days@[k]));
        }
        assert forall|d: i32| lo <= d <= hi && has_day(entries@, d as int) implies exists|k: int|
            0 <= k < rows@.len() && (#[trigger] rows@[k]).date.days == d by {
            assert(days@.contains(d));
            let j = choose|j: int| 0 <= j < days@.len() && days@[j] == d;
            assert(rows@[j].date.days == d);
        }
    }
    rows
}

/// The colour of the first session type with an id, or the default colour
/// where there is none.
pub open spec fn type_color(types: Seq<SessionType>, id: i64) -> Seq<char>
    decreases types.len(),
{
    if types.len() == 0 {
        default_color()
    } else if types[0].id == id {
        types[0].color@
    } else {
        type_color(types.drop_first(), id)
    }
}

/// The session type of the first picked session, if one is picked.
pub open spec fn first_type_id(s: Seq<DatedSession>, p: Pick) -> Option<i64>
    decreases s.len(),
{
    if s.len() == 0 {
        None
    } else if picks(p, s[0]) {
        Some(s[0].session.session_type_id)
    } else {
        first_type_id(s.drop_first(), p)
    }
}

/// The colour of a category: that of the session type of its first session.
pub open spec fn category_color(
    s: Seq<DatedSession>,
    types: Seq<SessionType>,
    p: Pick,
) -> Seq<char> {
    match first_type_id(s, p) {
        Some(id) => type_color(types, id),
        None => default_color(),
    }
}

fn color_of_type(types: &Vec<SessionType>, id: i64) -> (r: String)
    ensures
        r@ == type_color(types@, id),
{
    let mut i: usize = 0;
    assert(types@.skip(0) =~= types@);
    while i < types.len()
        invariant
            i <= types@.len(),
            type_color(types@, id) == type_color(types@.skip(i as int), id),
        decreases types@.len() - i,
    {
        proof {
            assert(types@.skip(i as int)[0] == types@[i as int]);
            assert(types@.skip(i as int).drop_first() =~= types@.skip(i as int + 1));
        }
        if types[i].id == id {
            return types[i].color.clone();
        }
        i = i + 1;
    }
    "#6366F1".to_string()
}

fn color_of_category(entries: &Vec<DatedSession>, types: &Vec<SessionType>, p: &Pick) -> (r: String)
    ensures
        r@ == category_color(entries@, types@, *p),
{
    let mut i: usize = 0;
    assert(entries@.skip(0) =~= entries@);
    while i < entries.len()
        invariant
            i <= entries@.len(),
            first_type_id(entries@, *p) == first_type_id(entries@.skip(i as int), *p),
        decreases entries@.len() - i,
    {
        proof {
            assert(entries@.skip(i as int)[0] == entries@[i as int]);
            assert(entries@.skip(i as int).drop_first() =~= entries@.skip(i as int + 1));
        }
        if is_picked(p, &entries[i]) {
            return color_of_type(types, entries[i].session.session_type_id);
        }
        i = i + 1;
    }
    "#6366F1".to_string()
}

/// The row of a category.
pub open spec fn category_row_of(
    row: CategoryBreakdown,
    s: Seq<DatedSession>,
    types: Seq<SessionType>,
    lo: i32,
    hi: i32,
) -> bool {
    let p = Pick::Category(lo, hi, row.category);
    &&& row.minutes == total(s, Measure::Minutes, p)
    &&& row.sessions == total(s, Measure::Sessions, p)
    &&& row.pay == total(s, Measure::Pay, p)
    &&& row.color@ == category_color(s, types, p)
}

/// Whether some session of a window belongs to the category.
pub open spec fn category_occurs(c: Seq<char>, s: Seq<DatedSession>, lo: i32, hi: i32) -> bool {
    exists|i: int|
        0 <= i < s.len() && (#[trigger] s[i]).dated_within(lo as int, hi as int)
            && s[i].category() == c
}

/// Whether the category is among the names.
pub open spec fn category_listed(names: Seq<String>, c: Seq<char>) -> bool {
    exists|k: int| 0 <= k < names.len() && (#[trigger] names[k])@ == c
}

/// Whether the names are those of the categories of a window: each the
/// category of a session of the window, none twice, none missing.
pub open spec fn names_of_window(names: Seq<String>, s: Seq<DatedSession>, lo: i32, hi: i32) -> bool {
    &&& forall|j: int, k: int| 0 <= j < k < names.len() ==> names[j]@ != names[k]@
    &&& forall|k: int| 0 <= k < names.len() ==> category_occurs((#[trigger] names[k])@, s, lo, hi)
    &&& forall|i: int|
        0 <= i < s.len() && (#[trigger] s[i]).dated_within(lo as int, hi as int)
            ==> category_listed(names, s[i].category())
}

/// Whether the rows are those of the categories of a window.
pub open spec fn category_rows_of(
    rows: Seq<CategoryBreakdown>,
    s: Seq<DatedSession>,
    types: Seq<SessionType>,
    lo: i32,
    hi: i32,
) -> bool {
    &&& names_of_window(Seq::new(rows.len(), |k: int| rows[k].category), s, lo, hi)
    &&& forall|k: int| 0 <= k < rows.len() ==> category_row_of(#[trigger] rows[k], s, types, lo, hi)
}

fn find_name(names: &Vec<String>, name: &str) -> (r: Option<usize>)
    ensures
        match r {
            Some(k) => k < names@.len() && names@[k as int]@ == name@,
            None => forall|k: int| 0 <= k < names@.len() ==> names@[k]@ != name@,
        },
{
    let mut k: usize = 0;
    while k < names.len()
        invariant
            k <= names@.len(),
            forall|j: int| 0 <= j < k ==> names@[j]@ != name@,
        decreases names@.len() - k,
    {
        if same_text(names[k].as_str(), name) {
            return Some(k);
        }
        k = k + 1;
    }
    None
}

fn category_name(e: &DatedSession) -> (r: String)
    ensures
        r@ == e.category(),
{
    match &e.session.session_type_name {
        Some(n) => n.clone(),
        None => "Unknown".to_string(),
    }
}

/// The names of the categories of a window, each once.
pub fn category_names(entries: &Vec<DatedSession>, lo: i32, hi: i32) -> (names: Vec<String>)
    ensures
        names_of_window(names@, entries@, lo, hi),
{
    let mut names: Vec<String> = Vec::new();
    let mut i: usize = 0;
    let window = Pick::Window(lo, hi);
    while i < entries.len()
        invariant
            i <= entries@.len(),
            window == Pick::Window(lo, hi),
            names_of_window(names@, entries@.take(i as int), lo, hi),
        decreases entries@.len() - i,
    {
        let e = &entries[i];
        let ghost before = names@;
        let ghost seen = entries@.take(i as int);
        let ghost next = entries@.take(i as int + 1);
        if is_picked(&window, e) {
            let name = category_name(e);
            match find_name(&names, name.as_str()) {
                Some(k) => {
                    proof {
                        assert(names@[k as int]@ == next[i as int].category());
                    }
                },
                None => {
                    names.push(name);
                    proof {
                        assert(names@[before.len() as int]@ == next[i as int].category());
                    }
                },
            }
        }
        proof {
            assert forall|k: int| 0 <= k < names@.len() implies category_occurs(
                (#[trigger] names@[k])@,
                next,
                lo,
                hi,
            ) by {
                if k < before.len() {
                    assert(category_occurs(before[k]@, seen, lo, hi));
                    let j = choose|j: int|
                        0 <= j < seen.len() && (#[trigger] seen[j]).dated_within(
                            lo as int,
                            hi as int,
                        ) && seen[j].category() == before[k]@;
                    assert(next[j] == seen[j]);
                } else {
                    assert(next[i as int].dated_within(lo as int, hi as int));
                }
            }
            assert forall|j: int|
                0 <= j < next.len() && (#[trigger] next[j]).dated_within(
                    lo as int,
                    hi as int,
                ) implies category_listed(names@, next[j].category()) by {
                if j < i {
                    assert(seen[j] == next[j]);
                    assert(category_listed(before, seen[j].category()));
                    let k = choose|k: int|
                        0 <= k < before.len() && (#[trigger] before[k])@ == seen[j].category();
                    assert(names@[k] == before[k]);
                }
            }
        }
        i = i + 1;
    }
    proof {
        assert(entries@.take(entries@.len() as int) =~= entries@);
    }
    names
}

/// The hours, sessions and pay of each category of a window.
pub fn category_breakdown(
    entries: &Vec<DatedSession>,
    types: &Vec<SessionType>,
    lo: i32,
    hi: i32,
) -> (rows: Vec<CategoryBreakdown>)
    ensures
        category_rows_of(rows@, entries@, types@, lo, hi),
{
    let names = category_names(entries, lo, hi);
    let mut rows: Vec<CategoryBreakdown> = Vec::new();
    let mut k: usize = 0;
    while k < names.len()
        invariant
            k <= names@.len(),
            rows@.len() == k,
            forall|j: int|
                0 <= j < k ==> (#[trigger] rows@[j]).category == names@[j] && category_row_of(
                    rows@[j],
                    entries@,
                    types@,
                    lo,
                    hi,
                ),
        decreases names@.len() - k,
    {
        let p = Pick::Category(lo, hi, names[k].clone());
        let minutes = minutes_of(entries, &p);
        let sessions = count_of(entries, Measure::Sessions, &p);
        let pay = total_of(entries, Measure::Pay, &p);
        let color = color_of_category(entries, types, &p);
        rows.push(CategoryBreakdown { category: names[k].clone(), color, minutes, sessions, pay });
        k = k + 1;
    }
    proof {
        assert(Seq::new(rows@.len(), |k: int| rows@[k].category) =~= names@);
    }
    rows
}

impl AnalyticsData {
    /// Whether these are the analytics of the sessions dated from `lo` to
    /// `hi`.
    pub open spec fn describes(
        &self,
        s: Seq<DatedSession>,
        types: Seq<SessionType>,
        lo: i32,
        hi: i32,
    ) -> bool {
        &&& self.summary == summary_of(s, lo, hi)
        &&& daily_rows_of(self.daily_hours@, s, lo, hi)
        &&& category_rows_of(self.category_breakdown@, s, types, lo, hi)
        &&& weekday_rows_of(self.weekday_breakdown@, s, lo, hi)
    }
}

/// The minutes of the seven weekday rows together.
pub open spec fn weekday_minutes(rows: Seq<WeekdayBreakdown>) -> int {
    rows[0].minutes + rows[1].minutes + rows[2].minutes + rows[3].minutes + rows[4].minutes
        + rows[5].minutes + rows[6].minutes
}

/// The sessions of the seven weekday rows together.
pub open spec fn weekday_sessions(rows: Seq<WeekdayBreakdown>) -> int {
    rows[0].sessions + rows[1].sessions + rows[2].sessions + rows[3].sessions + rows[4].sessions
        + rows[5].sessions + rows[6].sessions
}

/// The analytics of the sessions dated from `start` to `end`, both
/// included. A session without a day is in no range.
pub fn get_analytics(
    entries: &Vec<DatedSession>,
    types: &Vec<SessionType>,
    start: Date,
    end: Date,
) -> (data: AnalyticsData)
    ensures
        data.describes(entries@, types@, start.days, end.days),
        data.summary.total_minutes == total(
            entries@,
            Measure::Minutes,
            Pick::Window(start.days, end.days),
        ),
        data.summary.total_sessions == total(
            entries@,
            Measure::Sessions,
            Pick::Window(start.days, end.days),
        ),
        data.summary.total_sessions > 0 ==> data.summary.avg_session_minutes
            == data.summary.total_minutes / data.summary.total_sessions as u128,
        data.summary.total_sessions == 0 ==> data.summary.avg_session_minutes == 0,
        data.weekday_breakdown@.len() == 7,
        weekday_minutes(data.weekday_breakdown@) == data.summary.total_minutes,
        weekday_sessions(data.weekday_breakdown@) == data.summary.total_sessions,
{
    let lo = start.days;
    let hi = end.days;
    let window = Pick::Window(lo, hi);
    let total_minutes = minutes_of(entries, &window);
    let total_sessions = count_of(entries, Measure::Sessions, &window);
    let avg_session_minutes = if total_sessions > 0 {
        total_minutes / total_sessions as u128
    } else {
        0
    };
    let summary = AnalyticsSummary {
        total_minutes,
        total_sessions,
        avg_session_minutes,
        longest_session: longest_of(entries, &window),
        total_pay: total_of(entries, Measure::Pay, &window),
    };
    let weekdays = weekday_breakdown(entries, lo, hi);
    proof {
        lemma_weekdays_add_up(entries@, Measure::Minutes, lo, hi);
        lemma_weekdays_add_up(entries@, Measure::Sessions, lo, hi);
        assert(weekday_row_of(weekdays@[0], entries@, lo, hi, 0));
        assert(weekday_row_of(weekdays@[1], entries@, lo, hi, 1));
        assert(weekday_row_of(weekdays@[2], entries@, lo, hi, 2));
        assert(weekday_row_of(weekdays@[3], entries@, lo, hi, 3));
        assert(weekday_row_of(weekdays@[4], entries@, lo, hi, 4));
        assert(weekday_row_of(weekdays@[5], entries@, lo, hi, 5));
        assert(weekday_row_of(weekdays@[6], entries@, lo, hi, 6));
    }
    AnalyticsData {
        summary,
        daily_hours: daily_hours(entries, lo, hi),
        category_breakdown: category_breakdown(entries, types, lo, hi),
        weekday_breakdown: weekdays,
    }
}

/// What was earned today, this month, this year and in all, in cents.
#[derive(Debug, Clone, Copy, PartialEq, Eq, Structural)]
pub struct PaySummary {
    pub today: u128,
    pub this_month: u128,
    pub this_year: u128,
    pub all_time: u128,
}

/// Adds up the pay of today, of the month and of the year up to today,
/// and of all sessions. The first days of the month and of the year are
/// handed in. A session without a day counts in the last sum only.
pub fn get_pay_summary(
    entries: &Vec<DatedSession>,
    today: Date,
    month_start: Date,
    year_start: Date,
) -> (r: PaySummary)
    ensures
        r.today == total(entries@, Measure::Pay, Pick::Window(today.days, today.days)),
        r.this_month == total(entries@, Measure::Pay, Pick::Window(month_start.days, today.days)),
        r.this_year == total(entries@, Measure::Pay, Pick::Window(year_start.days, today.days)),
        r.all_time == total(entries@, Measure::Pay, Pick::All),
{
    PaySummary {
        today: total_of(entries, Measure::Pay, &Pick::Window(today.days, today.days)),
        this_month: total_of(entries, Measure::Pay, &Pick::Window(month_start.days, today.days)),
        this_year: total_of(entries, Measure::Pay, &Pick::Window(year_start.days, today.days)),
        all_time: total_of(entries, Measure::Pay, &Pick::All),
    }
}

/// The minutes that one session type has on a day.
#[derive(Debug, Clone)]
pub struct TypeMinutes {
    pub name: String,
    pub minutes: u128,
}

/// The figures of one day, in all and by session type.
#[derive(Debug, Clone)]
pub struct TodaySummary {
    pub date: Date,
    pub total_minutes: u128,
    /// Cents earned.
    pub total_pay: u128,
    /// One row for each session type, in the order of the types.
    pub session_minutes: Vec<TypeMinutes>,
}

/// The row of a session type on a day.
pub open spec fn type_row_of(row: TypeMinutes, s: Seq<DatedSession>, t: SessionType, day: i32) -> bool {
    row.name == t.name && row.minutes == total(s, Measure::Minutes, Pick::OfType(day, day, t.id))
}

/// The minutes and the pay of a day, and the minutes of each session type
/// on it.
pub fn get_today_summary(entries: &Vec<DatedSession>, types: &Vec<SessionType>, today: Date) -> (r:
    TodaySummary)
    ensures
        r.date == today,
        r.total_minutes == total(entries@, Measure::Minutes, Pick::Window(today.days, today.days)),
        r.total_pay == total(entries@, Measure::Pay, Pick::Window(today.days, today.days)),
        r.session_minutes@.len() == types@.len(),
        forall|k: int|
            0 <= k < types@.len() ==> type_row_of(
                #[trigger] r.session_minutes@[k],
                entries@,
                types@[k],
                today.days,
            ),
{
    let day = Pick::Window(today.days, today.days);
    let mut rows: Vec<TypeMinutes> = Vec::new();
    let mut k: usize = 0;
    while k < types.len()
        invariant
            k <= types@.len(),
            rows@.len() == k,
            forall|j: int|
                0 <= j < k ==> type_row_of(#[trigger] rows@[j], entries@, types@[j], today.days),
        decreases types@.len() - k,
    {
        let minutes = minutes_of(entries, &Pick::OfType(today.days, today.days, types[k].id));
        rows.push(TypeMinutes { name: types[k].name.clone(), minutes });
        k = k + 1;
    }
    TodaySummary {
        date: today,
        total_minutes: minutes_of(entries, &day),
        total_pay: total_of(entries, Measure::Pay, &day),
        session_minutes: rows,
    }
}

} // verus!
