//! Sessions placed on the calendar, and the totals taken over them.
//!
//! A session's stored date is read once. A session whose date cannot be
//! read keeps no day: it still counts where every session counts, and is
//! left out wherever a total is taken over a range of days.

use vstd::prelude::*;
use vstd::string::*;
use crate::date::Date;
use crate::models::{WorkSession, MAX_SESSION_PAY};
use crate::text::same_text;

verus! {

/// A session together with the day that its stored date names.
#[derive(Debug, Clone)]
pub struct DatedSession {
    pub session: WorkSession,
    /// `None` where the stored date names no day.
    pub day: Option<Date>,
}

impl DatedSession {
    /// Places a session on the calendar by reading its stored date.
    pub fn resolve(session: WorkSession) -> (r: DatedSession)
        ensures
            r.session == session,
            r.day == Date::of_text(session.date@),
    {
        let day = Date::parse(session.date.as_str());
        DatedSession { session, day }
    }

    /// The name of the session's category, `Unknown` where it has none.
    pub open spec fn category(&self) -> Seq<char> {
        match self.session.session_type_name {
            Some(name) => name@,
            None => "Unknown"@,
        }
    }

    /// Whether the session is dated within `lo ..= hi`.
    pub open spec fn dated_within(&self, lo: int, hi: int) -> bool {
        match self.day {
            Some(d) => lo <= d.days <= hi,
            None => false,
        }
    }
}

/// Places each session on the calendar, keeping their order.
pub fn resolve_all(sessions: Vec<WorkSession>) -> (r: Vec<DatedSession>)
    ensures
        r@.len() == sessions@.len(),
        forall|i: int|
            0 <= i < r@.len() ==> (#[trigger] r@[i]).session == sessions@[i] && r@[i].day
                == Date::of_text(sessions@[i].date@),
{
    let ghost all = sessions@;
    let mut rest = sessions;
    let mut reversed: Vec<DatedSession> = Vec::new();
    while rest.len() > 0
        invariant
            rest@.len() + reversed@.len() == all.len(),
            rest@ == all.take(rest@.len() as int),
            forall|k: int|
                0 <= k < reversed@.len() ==> (#[trigger] reversed@[k]).session == all[all.len() - 1
                    - k] && reversed@[k].day == Date::of_text(all[all.len() - 1 - k].date@),
        decreases rest@.len(),
    {
        let last = rest.pop().unwrap();
        reversed.push(DatedSession::resolve(last));
    }
    let mut out: Vec<DatedSession> = Vec::new();
    while reversed.len() > 0
        invariant
            out@.len() + reversed@.len() == all.len(),
            forall|k: int|
                0 <= k < reversed@.len() ==> (#[trigger] reversed@[k]).session == all[all.len() - 1
                    - k] && reversed@[k].day == Date::of_text(all[all.len() - 1 - k].date@),
            forall|i: int|
                0 <= i < out@.len() ==> (#[trigger] out@[i]).session == all[i] && out@[i].day
                    == Date::of_text(all[i].date@),
        decreases reversed@.len(),
    {
        let next = reversed.pop().unwrap();
        out.push(next);
    }
    out
}

/// What is added up over sessions.
#[derive(Debug, Clone, Copy, PartialEq, Eq, Structural)]
pub enum Measure {
    /// Minutes worked.
    Minutes,
    /// Cents earned.
    Pay,
    /// One for each session.
    Sessions,
    /// One for each session shorter than an hour.
    ShortSessions,
}

/// A session shorter than this many minutes is a short one.
pub const SHORT_SESSION_MINUTES: u16 = 60;

/// Which sessions a total is taken over.
#[derive(Debug, Clone)]
pub enum Pick {
    /// Every session, dated or not.
    All,
    /// The sessions dated from the first day number to the second, both
    /// included.
    Window(i32, i32),
    /// The sessions of a window that fall on a weekday, Sunday = 0.
    Weekday(i32, i32, u8),
    /// The sessions of a window that belong to a category.
    Category(i32, i32, String),
    /// The sessions of a window that are of the session type with an id.
    OfType(i32, i32, i64),
}

/// What one session adds to a total.
pub open spec fn measure_of(e: DatedSession, m: Measure) -> int {
    match m {
        Measure::Minutes => e.session.minutes as int,
        Measure::Pay => e.session.pay(),
        Measure::Sessions => 1,
        Measure::ShortSessions => if e.session.minutes < SHORT_SESSION_MINUTES {
            1
        } else {
            0
        },
    }
}

/// Whether a session is among those picked.
pub open spec fn picks(p: Pick, e: DatedSession) -> bool {
    match p {
        Pick::All => true,
        Pick::Window(lo, hi) => e.dated_within(lo as int, hi as int),
        Pick::Weekday(lo, hi, w) => e.dated_within(lo as int, hi as int)
            && crate::date::weekday_of(e.day.unwrap().days as int) == w,
        Pick::Category(lo, hi, name) => e.dated_within(lo as int, hi as int) && e.category()
            == name@,
        Pick::OfType(lo, hi, id) => e.dated_within(lo as int, hi as int)
            && e.session.session_type_id == id,
    }
}

/// The sum of a measure over the picked sessions.
pub open spec fn total(s: Seq<DatedSession>, m: Measure, p: Pick) -> int
    decreases s.len(),
{
    if s.len() == 0 {
        0
    } else {
        total(s.drop_last(), m, p) + if picks(p, s.last()) {
            measure_of(s.last(), m)
        } else {
            0
        }
    }
}

/// The longest duration, in minutes, among the picked sessions; 0 where
/// none is picked.
pub open spec fn longest(s: Seq<DatedSession>, p: Pick) -> int
    decreases s.len(),
{
    if s.len() == 0 {
        0
    } else {
        let before = longest(s.drop_last(), p);
        if picks(p, s.last()) && s.last().session.minutes > before {
            s.last().session.minutes as int
        } else {
            before
        }
    }
}

/// Whether some session is dated on the day numbered `d`.
pub open spec fn has_day(s: Seq<DatedSession>, d: int) -> bool {
    exists|i: int| 0 <= i < s.len() && (#[trigger] s[i]).dated_within(d, d)
}

fn value_of(e: &DatedSession, m: Measure) -> (r: u64)
    ensures
        r == measure_of(*e, m),
        r < MAX_SESSION_PAY,
{
    match m {
        Measure::Minutes => e.session.minutes as u64,
        Measure::Pay => e.session.calculate_pay(),
        Measure::Sessions => 1,
        Measure::ShortSessions => if e.session.minutes < SHORT_SESSION_MINUTES {
            1
        } else {
            0
        },
    }
}

fn in_days(day: &Option<Date>, lo: i32, hi: i32) -> (r: bool)
    ensures
        r == match *day {
            Some(d) => lo <= d.days <= hi,
            None => false,
        },
{
    match day {
        Some(d) => lo <= d.days && d.days <= hi,
        None => false,
    }
}

/// Whether a session is among those picked.
pub fn is_picked(p: &Pick, e: &DatedSession) -> (r: bool)
    ensures
        r == picks(*p, *e),
{
    match p {
        Pick::All => true,
        Pick::Window(lo, hi) => in_days(&e.day, *lo, *hi),
        Pick::Weekday(lo, hi, w) => match &e.day {
            Some(d) => *lo <= d.days && d.days <= *hi && d.weekday() == *w,
            None => false,
        },
        Pick::Category(lo, hi, name) => in_days(&e.day, *lo, *hi) && match &e.session.session_type_name {
            Some(n) => same_text(n.as_str(), name.as_str()),
            None => same_text("Unknown", name.as_str()),
        },
        Pick::OfType(lo, hi, id) => in_days(&e.day, *lo, *hi) && e.session.session_type_id == *id,
    }
}

/// Adds up a measure over the picked sessions.
pub fn total_of(entries: &Vec<DatedSession>, m: Measure, p: &Pick) -> (r: u128)
    ensures
        r == total(entries@, m, *p),
        r <= entries@.len() * MAX_SESSION_PAY,
        r < 0x1_0000_0000_0000_0000_0000_0000_0000,
{
    let mut acc: u128 = 0;
    let mut i: usize = 0;
    while i < entries.len()
        invariant
            i <= entries@.len(),
            acc == total(entries@.take(i as int), m, *p),
            acc <= i * MAX_SESSION_PAY,
        decreases entries@.len() - i,
    {
        let e = &entries[i];
        let v: u64 = if is_picked(p, e) {
            value_of(e, m)
        } else {
            0
        };
        proof {
            let next = entries@.take(i as int + 1);
            assert(next.drop_last() =~= entries@.take(i as int));
            assert(next.last() == entries@[i as int]);
        }
        acc = acc + v as u128;
        i = i + 1;
    }
    proof {
        assert(entries@.take(entries@.len() as int) =~= entries@);
    }
    acc
}

/// Finds the longest duration, in minutes, among the picked sessions.
pub fn longest_of(entries: &Vec<DatedSession>, p: &Pick) -> (r: u16)
    ensures
        r == longest(entries@, *p),
{
    let mut best: u16 = 0;
    let mut i: usize = 0;
    while i < entries.len()
        invariant
            i <= entries@.len(),
            best == longest(entries@.take(i as int), *p),
        decreases entries@.len() - i,
    {
        let e = &entries[i];
        proof {
            let next = entries@.take(i as int + 1);
            assert(next.drop_last() =~= entries@.take(i as int));
            assert(next.last() == entries@[i as int]);
        }
        if is_picked(p, e) && e.session.minutes > best {
            best = e.session.minutes;
        }
        i = i + 1;
    }
    proof {
        assert(entries@.take(entries@.len() as int) =~= entries@);
    }
    best
}

/// Whether the numbers rise strictly from each to the next.
pub open spec fn ascending(v: Seq<i32>) -> bool {
    forall|i: int, j: int| 0 <= i < j < v.len() ==> v[i] < v[j]
}

/// Taking one more session into account adds at most its own day.
pub proof fn lemma_has_day_step(s: Seq<DatedSession>, i: int, d: int)
    requires
        0 <= i < s.len(),
    ensures
        has_day(s.take(i + 1), d) <==> has_day(s.take(i), d) || s[i].dated_within(d, d),
{
    let shorter = s.take(i);
    let longer = s.take(i + 1);
    if has_day(longer, d) {
        let k = choose|k: int| 0 <= k < longer.len() && (#[trigger] longer[k]).dated_within(d, d);
        if k < i {
            assert(shorter[k].dated_within(d, d));
        }
    }
    if has_day(shorter, d) {
        let k = choose|k: int| 0 <= k < shorter.len() && (#[trigger] shorter[k]).dated_within(d, d);
        assert(longer[k].dated_within(d, d));
    }
    if s[i].dated_within(d, d) {
        assert(longer[i].dated_within(d, d));
    }
}

/// Puts a day number into a rising list, unless the list holds it already.
pub fn insert_day(v: &mut Vec<i32>, d: i32)
    requires
        ascending(old(v)@),
    ensures
        ascending(final(v)@),
        forall|x: i32| final(v)@.contains(x) <==> old(v)@.contains(x) || x == d,
        old(v)@.len() <= final(v)@.len() <= old(v)@.len() + 1,
{
    let mut k: usize = 0;
    while k < v.len() && v[k] < d
        invariant
            k <= v@.len(),
            v@ == old(v)@,
            forall|j: int| 0 <= j < k ==> v@[j] < d,
        decreases v@.len() - k,
    {
        k = k + 1;
    }
    if k < v.len() && v[k] == d {
        assert(v@.contains(d));
        return ;
    }
    let ghost before = v@;
    v.insert(k, d);
    proof {
        let after = v@;
        assert(after.len() == before.len() + 1);
        assert(forall|j: int| 0 <= j < k ==> after[j] == before[j]);
        assert(after[k as int] == d);
        assert(forall|j: int| k < j < after.len() ==> after[j] == before[j - 1]);
        assert(forall|j: int| k <= j < before.len() ==> before[j] > d) by {
            assert forall|j: int| k <= j < before.len() implies before[j] > d by {
                if j > k {
                    assert(before[k as int] < before[j]);
                }
            }
        }
        assert forall|x: i32| after.contains(x) <==> before.contains(x) || x == d by {
            if after.contains(x) {
                let j = choose|j: int| 0 <= j < after.len() && after[j] == x;
                if j < k {
                    assert(before[j] == x);
                } else if j > k {
                    assert(before[j - 1] == x);
                }
            }
            if before.contains(x) {
                let j = choose|j: int| 0 <= j < before.len() && before[j] == x;
                if j < k {
                    assert(after[j] == x);
                } else {
                    assert(after[j + 1] == x);
                }
            }
            if x == d {
                assert(after[k as int] == x);
            }
        }
        assert forall|i: int, j: int| 0 <= i < j < after.len() implies after[i] < after[j] by {
            if j < k {
                assert(before[i] < before[j]);
            } else if j == k {
            } else if i < k {
                assert(before[j - 1] >= d || j - 1 < k);
            } else if i == k {
            } else {
                assert(before[i - 1] < before[j - 1]);
            }
        }
    }
}

/// The days from `lo` to `hi` on which some session is dated, each once,
/// earliest first.
pub fn active_days(entries: &Vec<DatedSession>, lo: i32, hi: i32) -> (r: Vec<i32>)
    ensures
        ascending(r@),
        forall|d: i32| r@.contains(d) <==> lo <= d <= hi && has_day(entries@, d as int),
        r@.len() <= entries@.len(),
{
    let mut out: Vec<i32> = Vec::new();
    let mut i: usize = 0;
    while i < entries.len()
        invariant
            i <= entries@.len(),
            out@.len() <= i,
            ascending(out@),
            forall|d: i32|
                out@.contains(d) <==> lo <= d <= hi && has_day(entries@.take(i as int), d as int),
        decreases entries@.len() - i,
    {
        let ghost before = out@;
        match &entries[i].day {
            Some(day) => {
                if lo <= day.days && day.days <= hi {
                    insert_day(&mut out, day.days);
                }
            },
            None => {},
        }
        proof {
            assert forall|d: i32|
                out@.contains(d) <==> lo <= d <= hi && has_day(
                    entries@.take(i as int + 1),
                    d as int,
                ) by {
                lemma_has_day_step(entries@, i as int, d as int);
            }
        }
        i = i + 1;
    }
    proof {
        assert(entries@.take(entries@.len() as int) =~= entries@);
    }
    out
}

/// Adds up the minutes of the picked sessions.
pub fn minutes_of(entries: &Vec<DatedSession>, p: &Pick) -> (r: u128)
    ensures
        r == total(entries@, Measure::Minutes, *p),
        r <= entries@.len() * 0xffff,
        r < 0x1_0000_0000_0000_0000_0000,
{
    let mut acc: u128 = 0;
    let mut i: usize = 0;
    while i < entries.len()
        invariant
            i <= entries@.len(),
            acc == total(entries@.take(i as int), Measure::Minutes, *p),
            acc <= i * 0xffff,
        decreases entries@.len() - i,
    {
        let e = &entries[i];
        let v: u16 = if is_picked(p, e) {
            e.session.minutes
        } else {
            0
        };
        proof {
            let next = entries@.take(i as int + 1);
            assert(next.drop_last() =~= entries@.take(i as int));
            assert(next.last() == entries@[i as int]);
        }
        acc = acc + v as u128;
        i = i + 1;
    }
    proof {
        assert(entries@.take(entries@.len() as int) =~= entries@);
    }
    acc
}

/// Counts the picked sessions, or the short ones among them.
pub fn count_of(entries: &Vec<DatedSession>, m: Measure, p: &Pick) -> (r: usize)
    requires
        m == Measure::Sessions || m == Measure::ShortSessions,
    ensures
        r == total(entries@, m, *p),
        r <= entries@.len(),
{
    let mut acc: usize = 0;
    let mut i: usize = 0;
    while i < entries.len()
        invariant
            i <= entries@.len(),
            m == Measure::Sessions || m == Measure::ShortSessions,
            acc == total(entries@.take(i as int), m, *p),
            acc <= i,
        decreases entries@.len() - i,
    {
        let e = &entries[i];
        proof {
            let next = entries@.take(i as int + 1);
            assert(next.drop_last() =~= entries@.take(i as int));
            assert(next.last() == entries@[i as int]);
        }
        if is_picked(p, e) && (m == Measure::Sessions || e.session.minutes < SHORT_SESSION_MINUTES) {
            acc = acc + 1;
        }
        i = i + 1;
    }
    proof {
        assert(entries@.take(entries@.len() as int) =~= entries@);
    }
    acc
}

} // verus!
