//! Burnout risk over a trailing window of days.
//!
//! Four factors are judged on their own: the hours worked per week, the
//! longest single session, the days of rest, and how evenly the hours are
//! spread over the days worked. Each adds its points to a score, and the
//! score gives the risk level.

use vstd::prelude::*;
use vstd::string::*;
use crate::text::{decimal, decimal_text, tenths, tenths_text};
use crate::date::{Date, day_back};
use crate::math::{
    isqrt, sqrt_floor, is_sqrt_floor, least, lemma_sqrt_floor_exists, lemma_sqrt_floor_unique,
    lemma_sqrt_floor_at_least,
};
use crate::days::{
    DayFigure, over_days, over_list, centered, minutes_on, lemma_list_is_range,
    lemma_minutes_by_day, lemma_total_of_none, lemma_active_is_length, lemma_centered_identity,
    lemma_centered_covers, lemma_rising_length,
};
use crate::timeline::{
    DatedSession, Measure, Pick, total, longest, has_day, ascending, minutes_of, longest_of,
    active_days,
};

verus! {

/// The days that the window is held against when rest days are counted.
pub const REFERENCE_DAYS: u32 = 14;

/// How a factor stands.
#[derive(Debug, Clone, Copy, PartialEq, Eq, Structural)]
pub enum Severity {
    /// Within bounds; shown as `ok`.
    Fine,
    Warning,
    Danger,
}

/// The overall risk.
#[derive(Debug, Clone, Copy, PartialEq, Eq, Structural)]
pub enum RiskLevel {
    Low,
    Moderate,
    High,
    Critical,
}

/// The four factors.
#[derive(Debug, Clone, Copy, PartialEq, Eq, Structural)]
pub enum FactorKind {
    WeeklyHours,
    LongestSession,
    RestDays,
    ScheduleConsistency,
}

/// What is recommended.
#[derive(Debug, Clone, Copy, PartialEq, Eq, Structural)]
pub enum Advice {
    ReduceWeeklyHours,
    BreakUpLongSessions,
    ScheduleRestDays,
    KeepRegularHours,
    /// Every factor is fine.
    KeepItUp,
}

/// One factor as it was judged.
#[derive(Debug, Clone, Copy, PartialEq, Eq, Structural)]
pub struct BurnoutFactor {
    pub kind: FactorKind,
    pub severity: Severity,
    /// The figure that was judged: minutes per week, the minutes of the
    /// longest session, days of rest, or the standard deviation of the
    /// daily minutes, rounded down and no more than a day.
    pub value: i128,
}

/// A burnout assessment.
#[derive(Debug, Clone)]
pub struct BurnoutRisk {
    pub risk_level: RiskLevel,
    /// Points from 0 to 100.
    pub risk_score: u32,
    /// The four factors, in the order of `FactorKind`.
    pub factors: Vec<BurnoutFactor>,
    pub recommendations: Vec<Advice>,
}

/// The standard deviation of the daily minutes is given up to this many
/// minutes: those of a day.
pub const MAX_DEVIATION: u16 = 1440;

/// What an assessment is made from: figures of one window of days.
#[derive(Debug, Clone, Copy, PartialEq, Eq, Structural)]
pub struct WindowFigures {
    /// Minutes worked in the window.
    pub minutes: u128,
    /// Minutes of the longest session in the window.
    pub longest: u16,
    /// Days of the window with a session.
    pub active_days: u64,
    /// Whether the standard deviation of the daily minutes, over the days
    /// with a session, is above 4 hours.
    pub too_wide: bool,
    /// That standard deviation in minutes, rounded down and no more than
    /// `MAX_DEVIATION`.
    pub deviation: u16,
}

/// Weekly hours: over 60 hours a week is dangerous, over 50 a warning. The
/// window counts as two weeks, so the bounds are 7200 and 6000 minutes.
pub open spec fn hours_severity(window_minutes: int) -> Severity {
    if window_minutes > 7200 {
        Severity::Danger
    } else if window_minutes > 6000 {
        Severity::Warning
    } else {
        Severity::Fine
    }
}

/// Longest session: over 10 hours is dangerous, over 8 a warning.
pub open spec fn session_severity(longest_minutes: int) -> Severity {
    if longest_minutes > 600 {
        Severity::Danger
    } else if longest_minutes > 480 {
        Severity::Warning
    } else {
        Severity::Fine
    }
}

/// The days of rest: 14 less the days worked.
pub open spec fn rest_days(active_days: int) -> int {
    REFERENCE_DAYS - active_days
}

/// Rest: fewer than 2 days is dangerous, fewer than 4 a warning.
pub open spec fn rest_severity(active_days: int) -> Severity {
    if rest_days(active_days) < 2 {
        Severity::Danger
    } else if rest_days(active_days) < 4 {
        Severity::Warning
    } else {
        Severity::Fine
    }
}

/// Whether the standard deviation of the daily minutes, over the days
/// worked, is above 4 hours. With `n` days, sum `s` and sum of squares `q`
/// the variance is `(n*q - s*s) / (n*n)`; it is held against 240 squared.
pub open spec fn spread_too_wide(active_days: int, minutes: int, squared_minutes: int) -> bool {
    active_days > 0 && active_days * squared_minutes - minutes * minutes > 57600 * (active_days
        * active_days)
}

/// Schedule consistency: a standard deviation above 4 hours is a warning.
pub open spec fn consistency_severity(too_wide: bool) -> Severity {
    if too_wide {
        Severity::Warning
    } else {
        Severity::Fine
    }
}

/// The variance of the daily minutes over the days worked, rounded down.
pub open spec fn variance(active_days: int, minutes: int, squared_minutes: int) -> int {
    if active_days > 0 && active_days * squared_minutes >= minutes * minutes {
        (active_days * squared_minutes - minutes * minutes) / (active_days * active_days)
    } else {
        0
    }
}

/// The standard deviation of the daily minutes over the days worked, in
/// minutes, rounded down and no more than a day.
pub open spec fn deviation_of(active_days: int, minutes: int, squared_minutes: int) -> int {
    least(MAX_DEVIATION as int, sqrt_floor(variance(active_days, minutes, squared_minutes)))
}

/// The points that a factor adds at a severity.
pub open spec fn points(kind: FactorKind, severity: Severity) -> int {
    match severity {
        Severity::Fine => 0,
        Severity::Warning => match kind {
            FactorKind::WeeklyHours => 20,
            FactorKind::LongestSession => 15,
            FactorKind::RestDays => 15,
            FactorKind::ScheduleConsistency => 10,
        },
        Severity::Danger => match kind {
            FactorKind::WeeklyHours => 35,
            FactorKind::LongestSession => 25,
            FactorKind::RestDays => 30,
            FactorKind::ScheduleConsistency => 0,
        },
    }
}

/// The level of a score: 70 and more is critical, 45 and more high, 20 and
/// more moderate.
pub open spec fn risk_level_of(score: int) -> RiskLevel {
    if score >= 70 {
        RiskLevel::Critical
    } else if score >= 45 {
        RiskLevel::High
    } else if score >= 20 {
        RiskLevel::Moderate
    } else {
        RiskLevel::Low
    }
}

/// One recommendation for each factor that is not fine, in the order of the
/// factors; the praise alone where all are fine.
pub open spec fn advice_for(
    hours: Severity,
    session: Severity,
    rest: Severity,
    consistency: Severity,
) -> Seq<Advice> {
    let a = Seq::<Advice>::empty();
    let a = if hours != Severity::Fine {
        a.push(Advice::ReduceWeeklyHours)
    } else {
        a
    };
    let a = if session != Severity::Fine {
        a.push(Advice::BreakUpLongSessions)
    } else {
        a
    };
    let a = if rest != Severity::Fine {
        a.push(Advice::ScheduleRestDays)
    } else {
        a
    };
    let a = if consistency != Severity::Fine {
        a.push(Advice::KeepRegularHours)
    } else {
        a
    };
    if a.len() == 0 {
        seq![Advice::KeepItUp]
    } else {
        a
    }
}

/// The four factors of a window, judged.
pub open spec fn factors_of(w: WindowFigures) -> Seq<BurnoutFactor> {
    seq![
        BurnoutFactor {
            kind: FactorKind::WeeklyHours,
            severity: hours_severity(w.minutes as int),
            value: (w.minutes / 2) as i128,
        },
        BurnoutFactor {
            kind: FactorKind::LongestSession,
            severity: session_severity(w.longest as int),
            value: w.longest as i128,
        },
        BurnoutFactor {
            kind: FactorKind::RestDays,
            severity: rest_severity(w.active_days as int),
            value: rest_days(w.active_days as int) as i128,
        },
        BurnoutFactor {
            kind: FactorKind::ScheduleConsistency,
            severity: consistency_severity(w.too_wide),
            value: w.deviation as i128,
        },
    ]
}

/// The score of a window: the points of its four factors.
pub open spec fn score_of(w: WindowFigures) -> int {
    points(FactorKind::WeeklyHours, hours_severity(w.minutes as int)) + points(
        FactorKind::LongestSession,
        session_severity(w.longest as int),
    ) + points(FactorKind::RestDays, rest_severity(w.active_days as int)) + points(
        FactorKind::ScheduleConsistency,
        consistency_severity(w.too_wide),
    )
}

impl BurnoutRisk {
    /// Whether this is the assessment of the window's figures.
    pub open spec fn assesses(&self, w: WindowFigures) -> bool {
        &&& self.risk_score == score_of(w)
        &&& self.risk_level == risk_level_of(score_of(w))
        &&& self.factors@ == factors_of(w)
        &&& self.recommendations@ == advice_for(
            hours_severity(w.minutes as int),
            session_severity(w.longest as int),
            rest_severity(w.active_days as int),
            consistency_severity(w.too_wide),
        )
    }
}

fn points_for(kind: FactorKind, severity: Severity) -> (r: u32)
    ensures
        r == points(kind, severity),
        r <= 35,
{
    match severity {
        Severity::Fine => 0,
        Severity::Warning => match kind {
            FactorKind::WeeklyHours => 20,
            FactorKind::LongestSession => 15,
            FactorKind::RestDays => 15,
            FactorKind::ScheduleConsistency => 10,
        },
        Severity::Danger => match kind {
            FactorKind::WeeklyHours => 35,
            FactorKind::LongestSession => 25,
            FactorKind::RestDays => 30,
            FactorKind::ScheduleConsistency => 0,
        },
    }
}

/// Judges the figures of a window.
pub fn assess_burnout(w: WindowFigures) -> (risk: BurnoutRisk)
    ensures
        risk.assesses(w),
{
    let hours = if w.minutes > 7200 {
        Severity::Danger
    } else if w.minutes > 6000 {
        Severity::Warning
    } else {
        Severity::Fine
    };
    let session = if w.longest > 600 {
        Severity::Danger
    } else if w.longest > 480 {
        Severity::Warning
    } else {
        Severity::Fine
    };
    let rest_count: i128 = REFERENCE_DAYS as i128 - w.active_days as i128;
    let rest = if rest_count < 2 {
        Severity::Danger
    } else if rest_count < 4 {
        Severity::Warning
    } else {
        Severity::Fine
    };
    let consistency = if w.too_wide {
        Severity::Warning
    } else {
        Severity::Fine
    };

    let mut factors: Vec<BurnoutFactor> = Vec::new();
    factors.push(
        BurnoutFactor {
            kind: FactorKind::WeeklyHours,
            severity: hours,
            value: (w.minutes / 2) as i128,
        },
    );
    factors.push(
        BurnoutFactor {
            kind: FactorKind::LongestSession,
            severity: session,
            value: w.longest as i128,
        },
    );
    factors.push(BurnoutFactor { kind: FactorKind::RestDays, severity: rest, value: rest_count });
    factors.push(
        BurnoutFactor {
            kind: FactorKind::ScheduleConsistency,
            severity: consistency,
            value: w.deviation as i128,
        },
    );
    assert(factors@ =~= factors_of(w));

    let score: u32 = points_for(FactorKind::WeeklyHours, hours) + points_for(
        FactorKind::LongestSession,
        session,
    ) + points_for(FactorKind::RestDays, rest) + points_for(
        FactorKind::ScheduleConsistency,
        consistency,
    );
    let level = if score >= 70 {
        RiskLevel::Critical
    } else if score >= 45 {
        RiskLevel::High
    } else if score >= 20 {
        RiskLevel::Moderate
    } else {
        RiskLevel::Low
    };

    let mut recommendations: Vec<Advice> = Vec::new();
    if hours != Severity::Fine {
        recommendations.push(Advice::ReduceWeeklyHours);
    }
    if session != Severity::Fine {
        recommendations.push(Advice::BreakUpLongSessions);
    }
    if rest != Severity::Fine {
        recommendations.push(Advice::ScheduleRestDays);
    }
    if consistency != Severity::Fine {
        recommendations.push(Advice::KeepRegularHours);
    }
    if recommendations.len() == 0 {
        recommendations.push(Advice::KeepItUp);
    }
    assert(recommendations@ =~= advice_for(hours, session, rest, consistency));
    BurnoutRisk { risk_level: level, risk_score: score, factors, recommendations }
}

/// The figures of the sessions dated from `lo` to `hi`.
pub open spec fn window_figures(s: Seq<DatedSession>, lo: i32, hi: i32) -> WindowFigures {
    let minutes = total(s, Measure::Minutes, Pick::Window(lo, hi));
    let active = over_days(s, lo as int, hi as int, DayFigure::Active);
    let squared = over_days(s, lo as int, hi as int, DayFigure::SquaredMinutes);
    WindowFigures {
        minutes: minutes as u128,
        longest: longest(s, Pick::Window(lo, hi)) as u16,
        active_days: active as u64,
        too_wide: spread_too_wide(active, minutes, squared),
        deviation: deviation_of(active, minutes, squared) as u16,
    }
}

/// How far off a day counts as far off: a day whose minutes lie
/// `FAR_OFF * (root + 1)` or more from the rounded-down mean, `root` being
/// the rounded-down square root of the number of days, puts the standard
/// deviation at a day or more, so that its square need not be taken.
const FAR_OFF: u128 = 1681;

/// With a day this far from the rounded-down mean, the deviation is above
/// four hours and no less than a day.
proof fn lemma_far_off_day(
    s: Seq<DatedSession>,
    v: Seq<i32>,
    k: int,
    d: int,
    m: int,
    q: int,
    root: int,
)
    requires
        0 <= k < v.len(),
        d == v.len(),
        m == over_list(s, v, DayFigure::Minutes),
        m >= 0,
        q == m / d,
        root >= 0,
        d < (root + 1) * (root + 1),
        minutes_on(s, v[k] as int) - q >= FAR_OFF * (root + 1) || q - minutes_on(s, v[k] as int)
            >= FAR_OFF * (root + 1),
    ensures
        spread_too_wide(d, m, over_list(s, v, DayFigure::SquaredMinutes)),
        deviation_of(d, m, over_list(s, v, DayFigure::SquaredMinutes)) == MAX_DEVIATION,
{
    let big_q = over_list(s, v, DayFigure::SquaredMinutes);
    let c = centered(s, v, q);
    let t = minutes_on(s, v[k] as int);
    let r = m % d;
    lemma_centered_covers(s, v, q, k);
    lemma_centered_identity(s, v, q);
    vstd::arithmetic::div_mod::lemma_fundamental_div_mod(m, d);
    let lim = 1681 * (root + 1);
    assert((t - q) * (t - q) >= lim * lim) by (nonlinear_arith)
        requires
            lim >= 0,
            t - q >= lim || q - t >= lim,
    ;
    assert(lim * lim >= 2825761 * (d + 1)) by (nonlinear_arith)
        requires
            lim == 1681 * (root + 1),
            root >= 0,
            d + 1 <= (root + 1) * (root + 1),
    ;
    assert(d * big_q - m * m == d * c - r * r) by (nonlinear_arith)
        requires
            c == big_q - 2 * q * m + d * (q * q),
            m == d * q + r,
    ;
    let wide = d * big_q - m * m;
    assert(wide >= 2131200 * (d * d)) by (nonlinear_arith)
        requires
            wide == d * c - r * r,
            c >= 2825761 * (d + 1),
            0 <= r <= d - 1,
            d >= 1,
    ;
    assert(d * d >= 1) by (nonlinear_arith)
        requires
            d >= 1,
    ;
    assert(wide / (d * d) >= 2131200) by (nonlinear_arith)
        requires
            wide >= 2131200 * (d * d),
            d * d >= 1,
    ;
    lemma_sqrt_floor_at_least(variance(d, m, big_q), 1440);
}

/// How far the daily minutes spread over the listed days: whether their
/// standard deviation is above four hours, and the deviation itself.
fn measure_spread(entries: &Vec<DatedSession>, days: &Vec<i32>, minutes: u128) -> (r: (bool, u16))
    requires
        ascending(days@),
        minutes == over_list(entries@, days@, DayFigure::Minutes),
    ensures
        r.0 == spread_too_wide(
            days@.len() as int,
            minutes as int,
            over_list(entries@, days@, DayFigure::SquaredMinutes),
        ),
        r.1 == deviation_of(
            days@.len() as int,
            minutes as int,
            over_list(entries@, days@, DayFigure::SquaredMinutes),
        ),
{
    let n = days.len();
    let ghost s = entries@;
    let ghost v = days@;
    let ghost big_q = over_list(s, v, DayFigure::SquaredMinutes);
    if n == 0 {
        proof {
            assert(is_sqrt_floor(0, 0));
            lemma_sqrt_floor_exists(0);
            lemma_sqrt_floor_unique(0, sqrt_floor(0), 0);
        }
        return (false, 0);
    }
    proof {
        lemma_rising_length(v);
    }
    let d: u128 = n as u128;
    let q: u128 = minutes / d;
    let r: u128 = minutes % d;
    let root: u128 = isqrt(d) as u128;
    assert(root <= 0x1_0000) by (nonlinear_arith)
        requires
            root * root <= d,
            d <= 0x1_0000_0000,
            root >= 0,
    ;
    let limit: u128 = FAR_OFF * (root + 1);
    let mut u: u128 = 0;
    let mut k: usize = 0;
    while k < n
        invariant
            k <= n,
            n == days@.len(),
            v == days@,
            s == entries@,
            d == n,
            1 <= d <= 0x1_0000_0000,
            q == minutes / d,
            minutes == over_list(s, v, DayFigure::Minutes),
            root * root <= d < (root + 1) * (root + 1),
            limit == FAR_OFF * (root + 1),
            limit <= 110167697,
            u == centered(s, v.take(k as int), q as int),
            u <= k * 12136921241948416,
        decreases n - k,
    {
        let t = minutes_of(entries, &Pick::Window(days[k], days[k]));
        let dev: u128 = if t >= q {
            t - q
        } else {
            q - t
        };
        proof {
            let next = v.take(k as int + 1);
            assert(next.drop_last() =~= v.take(k as int));
            assert(next.last() == v[k as int]);
            assert(t == minutes_on(s, v[k as int] as int));
        }
        if dev >= limit {
            proof {
                lemma_far_off_day(
                    s,
                    v,
                    k as int,
                    d as int,
                    minutes as int,
                    q as int,
                    root as int,
                );
            }
            return (true, MAX_DEVIATION);
        }
        assert(dev * dev <= 110167696 * 110167696) by (nonlinear_arith)
            requires
                0 <= dev <= 110167696,
        ;
        assert(dev * dev == (t - q) * (t - q)) by (nonlinear_arith)
            requires
                dev == t - q || dev == q - t,
        ;
        u = u + dev * dev;
        k = k + 1;
    }
    assert(u <= 0x1_0000_0000 * 12136921241948416);
    assert(d * u <= 0x1_0000_0000 * (0x1_0000_0000 * 12136921241948416)) by (nonlinear_arith)
        requires
            0 <= d <= 0x1_0000_0000,
            0 <= u <= 0x1_0000_0000 * 12136921241948416,
    ;
    assert(r * r <= 0x1_0000_0000 * 0x1_0000_0000) by (nonlinear_arith)
        requires
            0 <= r <= 0x1_0000_0000,
    ;
    assert(1 <= d * d <= 0x1_0000_0000 * 0x1_0000_0000) by (nonlinear_arith)
        requires
            1 <= d <= 0x1_0000_0000,
    ;
    let du: u128 = d * u;
    let rr: u128 = r * r;
    let dd: u128 = d * d;
    proof {
        assert(v.take(n as int) =~= v);
        lemma_centered_identity(s, v, q as int);
        vstd::arithmetic::div_mod::lemma_fundamental_div_mod(minutes as int, d as int);
        let c: int = u as int;
        let m: int = minutes as int;
        let di: int = d as int;
        let qi: int = q as int;
        let ri: int = r as int;
        assert(di * big_q - m * m == di * c - ri * ri) by (nonlinear_arith)
            requires
                c == big_q - 2 * qi * m + di * (qi * qi),
                m == di * qi + ri,
        ;
    }
    let wide = du > rr + 57600 * dd;
    let var: u128 = if du >= rr {
        (du - rr) / dd
    } else {
        0
    };
    let deviation = isqrt(var);
    let shown: u16 = if deviation > MAX_DEVIATION as u64 {
        MAX_DEVIATION
    } else {
        deviation as u16
    };
    (wide, shown)
}

/// Gathers the figures of the sessions dated from `lo` to `hi`.
pub fn gather_window(entries: &Vec<DatedSession>, lo: i32, hi: i32) -> (w: WindowFigures)
    ensures
        w == window_figures(entries@, lo, hi),
{
    let window = Pick::Window(lo, hi);
    let minutes = minutes_of(entries, &window);
    let longest = longest_of(entries, &window);
    let days = active_days(entries, lo, hi);
    proof {
        let s = entries@;
        assert forall|k: int| 0 <= k < days@.len() implies has_day(s, #[trigger] days@[k] as int) by {
            assert(days@.contains(days@[k]));
        }
        lemma_active_is_length(s, days@);
        lemma_rising_length(days@);
        if lo <= hi {
            lemma_list_is_range(s, days@, lo, hi as int, DayFigure::Active);
            lemma_list_is_range(s, days@, lo, hi as int, DayFigure::Minutes);
            lemma_list_is_range(s, days@, lo, hi as int, DayFigure::SquaredMinutes);
            lemma_minutes_by_day(s, lo, hi as int);
        } else {
            if days@.len() > 0 {
                assert(days@.contains(days@[0]));
            }
            assert forall|i: int| 0 <= i < s.len() implies !crate::timeline::picks(
                window,
                #[trigger] s[i],
            ) by {}
            lemma_total_of_none(s, Measure::Minutes, window);
        }
    }
    let spread = measure_spread(entries, &days, minutes);
    WindowFigures {
        minutes,
        longest,
        active_days: days.len() as u64,
        too_wide: spread.0,
        deviation: spread.1,
    }
}

/// Assesses the burnout risk over the `days` days before `today` and
/// `today` itself.
pub fn get_burnout_risk(entries: &Vec<DatedSession>, today: Date, days: u32) -> (risk: BurnoutRisk)
    ensures
        risk.assesses(window_figures(entries@, day_back(today, days), today.days)),
{
    assess_burnout(gather_window(entries, today.back(days), today.days))
}

impl Severity {
    /// The word for a severity.
    pub open spec fn label(self) -> Seq<char> {
        match self {
            Severity::Fine => "ok"@,
            Severity::Warning => "warning"@,
            Severity::Danger => "danger"@,
        }
    }

    pub fn to_string(&self) -> (r: String)
        ensures
            r@ == self.label(),
    {
        match self {
            Severity::Fine => "ok".to_string(),
            Severity::Warning => "warning".to_string(),
            Severity::Danger => "danger".to_string(),
        }
    }
}

impl RiskLevel {
    /// The word for a risk level.
    pub open spec fn label(self) -> Seq<char> {
        match self {
            RiskLevel::Low => "Low"@,
            RiskLevel::Moderate => "Moderate"@,
            RiskLevel::High => "High"@,
            RiskLevel::Critical => "Critical"@,
        }
    }

    pub fn to_string(&self) -> (r: String)
        ensures
            r@ == self.label(),
    {
        match self {
            RiskLevel::Low => "Low".to_string(),
            RiskLevel::Moderate => "Moderate".to_string(),
            RiskLevel::High => "High".to_string(),
            RiskLevel::Critical => "Critical".to_string(),
        }
    }
}

impl Advice {
    /// The recommendation in words.
    pub open spec fn text(self) -> Seq<char> {
        match self {
            Advice::ReduceWeeklyHours => "Reduce weekly hours to under 50 for sustainability."@,
            Advice::BreakUpLongSessions => "Break long sessions into smaller blocks with breaks."@,
            Advice::ScheduleRestDays => "Schedule at least 2 full rest days per week."@,
            Advice::KeepRegularHours => "Establish a more consistent daily schedule."@,
            Advice::KeepItUp => "Great work-life balance! Keep it up."@,
        }
    }

    pub fn message(&self) -> (r: String)
        ensures
            r@ == self.text(),
    {
        match self {
            Advice::ReduceWeeklyHours => "Reduce weekly hours to under 50 for sustainability.".to_string(),
            Advice::BreakUpLongSessions => "Break long sessions into smaller blocks with breaks.".to_string(),
            Advice::ScheduleRestDays => "Schedule at least 2 full rest days per week.".to_string(),
            Advice::KeepRegularHours => "Establish a more consistent daily schedule.".to_string(),
            Advice::KeepItUp => "Great work-life balance! Keep it up.".to_string(),
        }
    }
}

/// A number of minutes written in hours with one decimal, rounded down.
pub open spec fn hours_text(minutes: nat) -> Seq<char> {
    tenths(minutes / 6)
}

/// A whole number written in decimal digits, with a minus sign in front
/// where it is below zero.
pub open spec fn signed_decimal(n: int) -> Seq<char> {
    if n < 0 {
        "-"@ + decimal((-n) as nat)
    } else {
        decimal(n as nat)
    }
}

impl FactorKind {
    /// The name of a factor.
    pub open spec fn title(self) -> Seq<char> {
        match self {
            FactorKind::WeeklyHours => "Weekly Hours"@,
            FactorKind::LongestSession => "Longest Session"@,
            FactorKind::RestDays => "Rest Days (2 weeks)"@,
            FactorKind::ScheduleConsistency => "Schedule Consistency"@,
        }
    }

    /// The bound within which a factor is fine.
    pub open spec fn bound(self) -> Seq<char> {
        match self {
            FactorKind::WeeklyHours => "Under 50h"@,
            FactorKind::LongestSession => "Under 8h"@,
            FactorKind::RestDays => "At least 4 days"@,
            FactorKind::ScheduleConsistency => "Under \u{B1}4h"@,
        }
    }
}

/// A figure as a count of minutes: itself, or nothing where it is below
/// zero.
pub open spec fn as_minutes(v: i128) -> nat {
    if v < 0 {
        0
    } else {
        v as nat
    }
}

impl BurnoutFactor {
    /// The figure of the factor in words.
    pub open spec fn value_text(self) -> Seq<char> {
        match self.kind {
            FactorKind::WeeklyHours => hours_text(as_minutes(self.value)) + "h/week"@,
            FactorKind::LongestSession => hours_text(as_minutes(self.value)) + "h"@,
            FactorKind::RestDays => signed_decimal(self.value as int) + " days"@,
            FactorKind::ScheduleConsistency => "\u{B1}"@ + hours_text(as_minutes(self.value))
                + "h variation"@,
        }
    }

    /// The name of the factor.
    pub fn name(&self) -> (r: String)
        ensures
            r@ == self.kind.title(),
    {
        match self.kind {
            FactorKind::WeeklyHours => "Weekly Hours".to_string(),
            FactorKind::LongestSession => "Longest Session".to_string(),
            FactorKind::RestDays => "Rest Days (2 weeks)".to_string(),
            FactorKind::ScheduleConsistency => "Schedule Consistency".to_string(),
        }
    }

    /// The bound within which the factor is fine.
    pub fn threshold(&self) -> (r: String)
        ensures
            r@ == self.kind.bound(),
    {
        match self.kind {
            FactorKind::WeeklyHours => "Under 50h".to_string(),
            FactorKind::LongestSession => "Under 8h".to_string(),
            FactorKind::RestDays => "At least 4 days".to_string(),
            FactorKind::ScheduleConsistency => "Under \u{B1}4h".to_string(),
        }
    }

    /// The figure of the factor in words: hours with one decimal, or days.
    pub fn value(&self) -> (r: String)
        ensures
            r@ == self.value_text(),
    {
        let minutes: u128 = if self.value < 0 {
            0
        } else {
            self.value as u128
        };
        match self.kind {
            FactorKind::WeeklyHours => {
                let r = tenths_text(minutes / 6).concat("h/week");
                r
            },
            FactorKind::LongestSession => {
                let r = tenths_text(minutes / 6).concat("h");
                r
            },
            FactorKind::RestDays => {
                if self.value < 0 {
                    let size: u128 = if self.value == i128::MIN {
                        0x8000_0000_0000_0000_0000_0000_0000_0000
                    } else {
                        (-self.value) as u128
                    };
                    let r = "-".to_string().concat(decimal_text(size).as_str()).concat(" days");
                    assert(r@ =~= self.value_text());
                    r
                } else {
                    let r = decimal_text(self.value as u128).concat(" days");
                    r
                }
            },
            FactorKind::ScheduleConsistency => {
                let r = "\u{B1}".to_string().concat(
                    tenths_text(minutes / 6).as_str(),
                ).concat("h variation");
                assert(r@ =~= self.value_text());
                r
            },
        }
    }
}

} // verus!
