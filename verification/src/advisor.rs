//! The financial advisor: weekly averages over the last four weeks, the
//! trend of the income, the time a goal still takes, and what follows
//! from them.

use vstd::prelude::*;
use vstd::string::*;
use crate::date::{Date, day_back};
use crate::models::{FinancialGoal, progress_of, remaining_of};
use crate::text::{decimal, decimal_text, money, money_text, tenths, tenths_text};
use crate::timeline::{DatedSession, Measure, Pick, total, total_of, minutes_of};

verus! {

/// The weeks over which the weekly averages are taken.
pub const AVERAGED_WEEKS: u32 = 4;

/// The first day number of the window of `weeks` weeks that ends today.
pub open spec fn weeks_start(today: Date, weeks: u32) -> i32 {
    if today.days - 7 * weeks + 1 < i32::MIN {
        i32::MIN
    } else if today.days - 7 * weeks + 1 > i32::MAX {
        i32::MAX
    } else {
        (today.days - 7 * weeks + 1) as i32
    }
}

/// The window of `weeks` times seven days that ends today: its first and
/// its last day.
pub fn trailing_weeks(today: Date, weeks: u32) -> (r: (Date, Date))
    ensures
        r.0.days == weeks_start(today, weeks),
        r.1 == today,
{
    let start: i64 = today.days as i64 - 7 * (weeks as i64) + 1;
    let first: i32 = if start < i32::MIN as i64 {
        i32::MIN
    } else if start > i32::MAX as i64 {
        i32::MAX
    } else {
        start as i32
    };
    (Date { days: first }, today)
}

/// The minutes worked on a day.
pub fn total_hours_for_date(entries: &Vec<DatedSession>, date: Date) -> (minutes: u128)
    ensures
        minutes == total(entries@, Measure::Minutes, Pick::Window(date.days, date.days)),
{
    minutes_of(entries, &Pick::Window(date.days, date.days))
}

/// The cents earned on a day.
pub fn total_pay_for_date(entries: &Vec<DatedSession>, date: Date) -> (cents: u128)
    ensures
        cents == total(entries@, Measure::Pay, Pick::Window(date.days, date.days)),
{
    total_of(entries, Measure::Pay, &Pick::Window(date.days, date.days))
}

/// The income of a week in cents: what the last four weeks earned, divided
/// by four, whether or not each of the weeks had a session.
pub fn calculate_avg_weekly_income(entries: &Vec<DatedSession>, today: Date) -> (cents: u128)
    ensures
        cents == total(
            entries@,
            Measure::Pay,
            Pick::Window(weeks_start(today, AVERAGED_WEEKS), today.days),
        ) / 4,
        cents < 0x1_0000_0000_0000_0000_0000_0000_0000,
{
    let w = trailing_weeks(today, AVERAGED_WEEKS);
    total_of(entries, Measure::Pay, &Pick::Window(w.0.days, w.1.days)) / 4
}

/// The minutes worked in a week: those of the last four weeks, divided by
/// four.
pub fn calculate_avg_weekly_hours(entries: &Vec<DatedSession>, today: Date) -> (minutes: u128)
    ensures
        minutes == total(
            entries@,
            Measure::Minutes,
            Pick::Window(weeks_start(today, AVERAGED_WEEKS), today.days),
        ) / 4,
        minutes < 0x1_0000_0000_0000_0000_0000,
{
    let w = trailing_weeks(today, AVERAGED_WEEKS);
    minutes_of(entries, &Pick::Window(w.0.days, w.1.days)) / 4
}

/// The rate that stands in where no hours were worked: 30.00 an hour.
pub const DEFAULT_HOURLY_RATE: u128 = 3000;

/// The cents earned per hour at the weekly averages; the default rate
/// where no minutes were worked.
pub open spec fn hourly_rate_of(avg_minutes: int, avg_income: int) -> int {
    if avg_minutes > 0 {
        (avg_income * 60) / avg_minutes
    } else {
        DEFAULT_HOURLY_RATE as int
    }
}

/// The weekly minutes and the hourly rate from which a simulation starts.
pub fn get_current_financial_baseline(entries: &Vec<DatedSession>, today: Date) -> (r: (
    u128,
    u128,
))
    ensures
        r.0 == total(
            entries@,
            Measure::Minutes,
            Pick::Window(weeks_start(today, AVERAGED_WEEKS), today.days),
        ) / 4,
        r.1 == hourly_rate_of(
            r.0 as int,
            total(
                entries@,
                Measure::Pay,
                Pick::Window(weeks_start(today, AVERAGED_WEEKS), today.days),
            ) / 4,
        ),
{
    let minutes = calculate_avg_weekly_hours(entries, today);
    let income = calculate_avg_weekly_income(entries, today);
    let rate = if minutes > 0 {
        income * 60 / minutes
    } else {
        DEFAULT_HOURLY_RATE
    };
    (minutes, rate)
}

/// How long a goal still takes.
#[derive(Debug, Clone, Copy, PartialEq, Eq, Structural)]
pub enum GoalEta {
    /// Nothing is left to reach.
    Complete,
    Weeks(u128),
    Months(u128),
    Years(u128),
}

/// `a / b` rounded up, for a positive `b`.
pub open spec fn ceil_div(a: int, b: int) -> int {
    (a + b - 1) / b
}

/// The time that `remaining` cents take at `avg_weekly_income` cents a
/// week: nothing without income; otherwise the weeks, rounded up, given in
/// weeks below 4, in months of 4.33 weeks below 52, in years from there.
pub open spec fn eta_of(remaining: int, avg_weekly_income: int) -> Option<GoalEta> {
    if avg_weekly_income <= 0 {
        None
    } else if remaining <= 0 {
        Some(GoalEta::Complete)
    } else {
        let weeks = ceil_div(remaining, avg_weekly_income);
        if weeks < 4 {
            Some(GoalEta::Weeks(weeks as u128))
        } else if weeks < 52 {
            Some(GoalEta::Months(ceil_div(weeks * 100, 433) as u128))
        } else {
            Some(GoalEta::Years(ceil_div(weeks, 52) as u128))
        }
    }
}

/// The time a goal still takes at an average weekly income in cents.
pub fn calculate_goal_eta(goal: &FinancialGoal, avg_weekly_income: u128) -> (r: Option<GoalEta>)
    ensures
        r == eta_of(
            remaining_of(goal.target_amount as int, goal.current_amount as int),
            avg_weekly_income as int,
        ),
{
    if avg_weekly_income == 0 {
        return None;
    }
    let remaining: u128 = goal.remaining_amount() as u128;
    if remaining == 0 {
        return Some(GoalEta::Complete);
    }
    let whole: u128 = remaining / avg_weekly_income;
    let weeks: u128 = if remaining % avg_weekly_income == 0 {
        whole
    } else {
        whole + 1
    };
    proof {
        lemma_ceil_div(remaining as int, avg_weekly_income as int);
    }
    if weeks < 4 {
        Some(GoalEta::Weeks(weeks))
    } else if weeks < 52 {
        Some(GoalEta::Months((weeks * 100 + 432) / 433))
    } else {
        Some(GoalEta::Years((weeks + 51) / 52))
    }
}

/// Rounding a quotient up adds one to it unless the division leaves
/// nothing over; the quotient is no more than what is divided.
pub proof fn lemma_ceil_div(a: int, b: int)
    requires
        a >= 0,
        b > 0,
    ensures
        ceil_div(a, b) == if a % b == 0 {
            a / b
        } else {
            a / b + 1
        },
        0 <= a / b <= a,
{
    let q = a / b;
    let r = a % b;
    vstd::arithmetic::div_mod::lemma_fundamental_div_mod(a, b);
    assert(0 <= q <= a) by (nonlinear_arith)
        requires
            a == b * q + r,
            0 <= r < b,
            a >= 0,
            b > 0,
    ;
    if r == 0 {
        assert(a + b - 1 == b * q + (b - 1));
        vstd::arithmetic::div_mod::lemma_fundamental_div_mod_converse(a + b - 1, b, q, b - 1);
    } else {
        assert(b * (q + 1) == b * q + b) by (nonlinear_arith);
        assert(a + b - 1 == b * (q + 1) + (r - 1));
        vstd::arithmetic::div_mod::lemma_fundamental_div_mod_converse(a + b - 1, b, q + 1, r - 1);
    }
}

impl GoalEta {
    /// The time in words.
    pub open spec fn text(self) -> Seq<char> {
        match self {
            GoalEta::Complete => "Goal Complete!"@,
            GoalEta::Weeks(n) => decimal(n as nat) + " weeks"@,
            GoalEta::Months(n) => decimal(n as nat) + " months"@,
            GoalEta::Years(n) => decimal(n as nat) + " years"@,
        }
    }

    /// Writes the time in words.
    pub fn to_string(&self) -> (r: String)
        ensures
            r@ == self.text(),
    {
        match self {
            GoalEta::Complete => "Goal Complete!".to_string(),
            GoalEta::Weeks(n) => decimal_text(*n).concat(" weeks"),
            GoalEta::Months(n) => decimal_text(*n).concat(" months"),
            GoalEta::Years(n) => decimal_text(*n).concat(" years"),
        }
    }
}

/// A record that was asked for and is not there.
#[derive(Debug, Clone, Copy, PartialEq, Eq, Structural)]
pub enum LookupError {
    GoalNotFound,
}

impl LookupError {
    pub open spec fn text(self) -> Seq<char> {
        "Goal not found"@
    }

    pub fn message(&self) -> (r: String)
        ensures
            r@ == self.text(),
    {
        "Goal not found".to_string()
    }
}

/// The place of the first goal with an id.
pub fn find_goal(goals: &Vec<FinancialGoal>, goal_id: i64) -> (r: Option<usize>)
    ensures
        match r {
            Some(k) => k < goals@.len() && goals@[k as int].id == goal_id && forall|j: int|
                0 <= j < k ==> goals@[j].id != goal_id,
            None => forall|j: int| 0 <= j < goals@.len() ==> goals@[j].id != goal_id,
        },
{
    let mut k: usize = 0;
    while k < goals.len()
        invariant
            k <= goals@.len(),
            forall|j: int| 0 <= j < k ==> goals@[j].id != goal_id,
        decreases goals@.len() - k,
    {
        if goals[k].id == goal_id {
            return Some(k);
        }
        k = k + 1;
    }
    None
}

/// The time that the goal with an id still takes at the average weekly
/// income of the last four weeks; an error where no goal has the id.
pub fn get_goal_eta(
    goals: &Vec<FinancialGoal>,
    goal_id: i64,
    entries: &Vec<DatedSession>,
    today: Date,
) -> (r: Result<Option<GoalEta>, LookupError>)
    ensures
        match r {
            Ok(eta) => exists|k: int|
                0 <= k < goals@.len() && (#[trigger] goals@[k]).id == goal_id && (forall|j: int|
                    0 <= j < k ==> goals@[j].id != goal_id) && eta == eta_of(
                    remaining_of(goals@[k].target_amount as int, goals@[k].current_amount as int),
                    total(
                        entries@,
                        Measure::Pay,
                        Pick::Window(weeks_start(today, AVERAGED_WEEKS), today.days),
                    ) / 4,
                ),
            Err(e) => e == LookupError::GoalNotFound && forall|j: int|
                0 <= j < goals@.len() ==> goals@[j].id != goal_id,
        },
{
    match find_goal(goals, goal_id) {
        Some(k) => {
            let income = calculate_avg_weekly_income(entries, today);
            Ok(calculate_goal_eta(&goals[k], income))
        },
        None => Err(LookupError::GoalNotFound),
    }
}

/// The way the income goes.
#[derive(Debug, Clone, Copy, PartialEq, Eq, Structural)]
pub enum Trend {
    Increasing,
    Stable,
    Decreasing,
}

/// The trend of the income: increasing where the recent income is more
/// than eleven tenths of the older, decreasing where it is less than nine
/// tenths, stable otherwise.
pub open spec fn trend_of(recent: int, older: int) -> Trend {
    if recent * 10 > older * 11 {
        Trend::Increasing
    } else if recent * 10 < older * 9 {
        Trend::Decreasing
    } else {
        Trend::Stable
    }
}

/// Classifies the income of the last four weeks against that of the four
/// weeks before, both in cents.
pub fn classify_trend(recent: u128, older: u128) -> (t: Trend)
    ensures
        t == trend_of(recent as int, older as int),
{
    // ten times a difference is above `older` where the difference is above
    // a tenth of it, rounded down
    let tenth = older / 10;
    if recent > older && recent - older > tenth {
        Trend::Increasing
    } else if recent < older && older - recent > tenth {
        Trend::Decreasing
    } else {
        Trend::Stable
    }
}

impl Trend {
    pub open spec fn label(self) -> Seq<char> {
        match self {
            Trend::Increasing => "increasing"@,
            Trend::Stable => "stable"@,
            Trend::Decreasing => "decreasing"@,
        }
    }

    pub fn to_string(&self) -> (r: String)
        ensures
            r@ == self.label(),
    {
        match self {
            Trend::Increasing => "increasing".to_string(),
            Trend::Stable => "stable".to_string(),
            Trend::Decreasing => "decreasing".to_string(),
        }
    }
}

/// What an insight is about.
#[derive(Debug, Clone, Copy, PartialEq, Eq, Structural)]
pub enum InsightCategory {
    Income,
    Goals,
    Sustainability,
}

/// How an insight is to be taken.
#[derive(Debug, Clone, Copy, PartialEq, Eq, Structural)]
pub enum InsightSeverity {
    Info,
    Warning,
    Critical,
    Success,
}

/// What an insight says.
#[derive(Debug, Clone)]
pub enum InsightDetail {
    /// The income of the last four weeks and of the four before, in cents.
    IncomeTrend { trend: Trend, recent: u128, older: u128 },
    /// A goal between 90 and 100 percent; progress in hundredths of a
    /// percent, what is left in cents.
    GoalAlmostComplete { name: String, progress: i128, remaining: u64 },
    /// More than 50 hours a week on average, in minutes.
    HighWeeklyHours { avg_minutes: u128 },
}

/// One finding of the analysis.
#[derive(Debug, Clone)]
pub struct FinancialInsight {
    pub category: InsightCategory,
    pub severity: InsightSeverity,
    pub detail: InsightDetail,
}

/// What the analysis recommends.
#[derive(Debug, Clone, Copy, PartialEq, Eq, Structural)]
pub enum Recommendation {
    /// At the average weekly income all goals are complete in so many
    /// weeks, rounded down; what is left of them together is in cents.
    ClearGoals { weeks: u128, remaining: u128 },
    /// The income is decreasing.
    ReviewPipeline,
}

/// The analysis of the last eight weeks.
#[derive(Debug, Clone)]
pub struct FinancialAnalysis {
    /// Minutes worked per week.
    pub avg_weekly_minutes: u128,
    /// Cents earned per week.
    pub avg_weekly_income: u128,
    /// Cents in a month of 4.33 weeks, rounded down.
    pub projected_monthly_income: u128,
    /// Cents in a year of 52 weeks.
    pub projected_yearly_income: u128,
    pub income_trend: Trend,
    pub insights: Vec<FinancialInsight>,
    pub recommendations: Vec<Recommendation>,
}

/// The severity of the insight on the income.
pub open spec fn trend_severity(t: Trend) -> InsightSeverity {
    match t {
        Trend::Increasing => InsightSeverity::Success,
        Trend::Decreasing => InsightSeverity::Warning,
        Trend::Stable => InsightSeverity::Info,
    }
}

/// Whether a goal is almost complete: from 90 percent, short of 100.
pub open spec fn almost_complete(g: FinancialGoal) -> bool {
    9000 <= progress_of(g.target_amount as int, g.current_amount as int) < 10000
}

/// The insight on a goal that is almost complete.
pub open spec fn goal_insight(g: FinancialGoal) -> FinancialInsight {
    FinancialInsight {
        category: InsightCategory::Goals,
        severity: InsightSeverity::Success,
        detail: InsightDetail::GoalAlmostComplete {
            name: g.name,
            progress: progress_of(g.target_amount as int, g.current_amount as int) as i128,
            remaining: remaining_of(g.target_amount as int, g.current_amount as int) as u64,
        },
    }
}

/// An insight for each goal that is almost complete, in the order of the
/// goals, after the insights given.
pub open spec fn with_goal_insights(
    before: Seq<FinancialInsight>,
    goals: Seq<FinancialGoal>,
) -> Seq<FinancialInsight>
    decreases goals.len(),
{
    if goals.len() == 0 {
        before
    } else {
        let rest = with_goal_insights(before, goals.drop_last());
        if almost_complete(goals.last()) {
            rest.push(goal_insight(goals.last()))
        } else {
            rest
        }
    }
}

/// The insights of an analysis: on the income where there is one, on each
/// goal that is almost complete, and on the hours where they average more
/// than 50 a week.
pub open spec fn analysis_insights(
    avg_minutes: int,
    avg_income: int,
    recent: int,
    older: int,
    goals: Seq<FinancialGoal>,
) -> Seq<FinancialInsight> {
    let a = Seq::<FinancialInsight>::empty();
    let a = if avg_income > 0 {
        a.push(
            FinancialInsight {
                category: InsightCategory::Income,
                severity: trend_severity(trend_of(recent, older)),
                detail: InsightDetail::IncomeTrend {
                    trend: trend_of(recent, older),
                    recent: recent as u128,
                    older: older as u128,
                },
            },
        )
    } else {
        a
    };
    let a = with_goal_insights(a, goals);
    if avg_minutes > 3000 {
        a.push(
            FinancialInsight {
                category: InsightCategory::Sustainability,
                severity: InsightSeverity::Warning,
                detail: InsightDetail::HighWeeklyHours { avg_minutes: avg_minutes as u128 },
            },
        )
    } else {
        a
    }
}

/// What is left of the goals together, in cents.
pub open spec fn total_remaining(goals: Seq<FinancialGoal>) -> int
    decreases goals.len(),
{
    if goals.len() == 0 {
        0
    } else {
        total_remaining(goals.drop_last()) + remaining_of(
            goals.last().target_amount as int,
            goals.last().current_amount as int,
        )
    }
}

/// The recommendations of an analysis: the weeks until all goals are
/// complete, where there is income and something is left of the goals; a
/// review of the pipeline, where the income is decreasing.
pub open spec fn analysis_recommendations(
    avg_income: int,
    trend: Trend,
    goals: Seq<FinancialGoal>,
) -> Seq<Recommendation> {
    let a = Seq::<Recommendation>::empty();
    let a = if avg_income > 0 && total_remaining(goals) > 0 {
        a.push(
            Recommendation::ClearGoals {
                weeks: (total_remaining(goals) / avg_income) as u128,
                remaining: total_remaining(goals) as u128,
            },
        )
    } else {
        a
    };
    if trend == Trend::Decreasing {
        a.push(Recommendation::ReviewPipeline)
    } else {
        a
    }
}

/// The figures that an analysis is made from.
#[derive(Debug, Clone, Copy, PartialEq, Eq, Structural)]
pub struct IncomeFigures {
    /// Minutes worked in the four weeks that end today.
    pub minutes: u128,
    /// Cents earned in the four weeks that end today.
    pub income: u128,
    /// Cents earned in the 28 days before today.
    pub recent: u128,
    /// Cents earned in the 28 days before those.
    pub older: u128,
}

impl IncomeFigures {
    /// Whether the figures are within what sessions can add up to: the
    /// projections of an analysis are worked out in 128 bits, which hold
    /// them up to here.
    pub open spec fn within_limits(&self) -> bool {
        &&& self.minutes < 0x1_0000_0000_0000_0000_0000
        &&& self.income < 0x1_0000_0000_0000_0000_0000_0000_0000
    }
}

impl FinancialAnalysis {
    /// Whether this is the analysis of the figures and the goals.
    pub open spec fn analyses(&self, f: IncomeFigures, goals: Seq<FinancialGoal>) -> bool {
        &&& self.avg_weekly_minutes == f.minutes / 4
        &&& self.avg_weekly_income == f.income / 4
        &&& self.projected_monthly_income == (self.avg_weekly_income * 433) / 100
        &&& self.projected_yearly_income == self.avg_weekly_income * 52
        &&& self.income_trend == trend_of(f.recent as int, f.older as int)
        &&& self.insights@ == analysis_insights(
            self.avg_weekly_minutes as int,
            self.avg_weekly_income as int,
            f.recent as int,
            f.older as int,
            goals,
        )
        &&& self.recommendations@ == analysis_recommendations(
            self.avg_weekly_income as int,
            self.income_trend,
            goals,
        )
    }
}

/// Adds up what is left of the goals.
pub fn sum_remaining(goals: &Vec<FinancialGoal>) -> (r: u128)
    ensures
        r == total_remaining(goals@),
{
    let mut acc: u128 = 0;
    let mut k: usize = 0;
    while k < goals.len()
        invariant
            k <= goals@.len(),
            acc == total_remaining(goals@.take(k as int)),
            acc <= k * 0xffff_ffff_ffff_ffff,
        decreases goals@.len() - k,
    {
        proof {
            let next = goals@.take(k as int + 1);
            assert(next.drop_last() =~= goals@.take(k as int));
            assert(next.last() == goals@[k as int]);
        }
        acc = acc + goals[k].remaining_amount() as u128;
        k = k + 1;
    }
    proof {
        assert(goals@.take(goals@.len() as int) =~= goals@);
    }
    acc
}

/// Analyses the figures of the last eight weeks against the goals.
pub fn analyse_finances(f: IncomeFigures, goals: &Vec<FinancialGoal>) -> (r: FinancialAnalysis)
    requires
        f.within_limits(),
    ensures
        r.analyses(f, goals@),
{
    let avg_minutes = f.minutes / 4;
    let avg_income = f.income / 4;
    let trend = classify_trend(f.recent, f.older);

    let mut insights: Vec<FinancialInsight> = Vec::new();
    if avg_income > 0 {
        let severity = match trend {
            Trend::Increasing => InsightSeverity::Success,
            Trend::Decreasing => InsightSeverity::Warning,
            Trend::Stable => InsightSeverity::Info,
        };
        insights.push(
            FinancialInsight {
                category: InsightCategory::Income,
                severity,
                detail: InsightDetail::IncomeTrend { trend, recent: f.recent, older: f.older },
            },
        );
    }
    let ghost first = insights@;
    let mut k: usize = 0;
    while k < goals.len()
        invariant
            k <= goals@.len(),
            insights@ == with_goal_insights(first, goals@.take(k as int)),
        decreases goals@.len() - k,
    {
        proof {
            let next = goals@.take(k as int + 1);
            assert(next.drop_last() =~= goals@.take(k as int));
            assert(next.last() == goals@[k as int]);
        }
        let goal = &goals[k];
        let progress = goal.progress_percent();
        if progress >= 9000 && progress < 10000 {
            insights.push(
                FinancialInsight {
                    category: InsightCategory::Goals,
                    severity: InsightSeverity::Success,
                    detail: InsightDetail::GoalAlmostComplete {
                        name: goal.name.clone(),
                        progress,
                        remaining: goal.remaining_amount(),
                    },
                },
            );
        }
        k = k + 1;
    }
    proof {
        assert(goals@.take(goals@.len() as int) =~= goals@);
    }
    if avg_minutes > 3000 {
        insights.push(
            FinancialInsight {
                category: InsightCategory::Sustainability,
                severity: InsightSeverity::Warning,
                detail: InsightDetail::HighWeeklyHours { avg_minutes },
            },
        );
    }

    let mut recommendations: Vec<Recommendation> = Vec::new();
    let remaining = sum_remaining(goals);
    if avg_income > 0 && remaining > 0 {
        recommendations.push(
            Recommendation::ClearGoals { weeks: remaining / avg_income, remaining },
        );
    }
    if trend == Trend::Decreasing {
        recommendations.push(Recommendation::ReviewPipeline);
    }
    assert(recommendations@ =~= analysis_recommendations(avg_income as int, trend, goals@));

    FinancialAnalysis {
        avg_weekly_minutes: avg_minutes,
        avg_weekly_income: avg_income,
        projected_monthly_income: avg_income * 433 / 100,
        projected_yearly_income: avg_income * 52,
        income_trend: trend,
        insights,
        recommendations,
    }
}

/// The figures of the sessions as of `today`: the four weeks that end
/// today for the averages; for the trend the 28 days before today against
/// the 28 days before those.
pub open spec fn income_figures(s: Seq<DatedSession>, today: Date) -> IncomeFigures {
    IncomeFigures {
        minutes: total(
            s,
            Measure::Minutes,
            Pick::Window(weeks_start(today, AVERAGED_WEEKS), today.days),
        ) as u128,
        income: total(
            s,
            Measure::Pay,
            Pick::Window(weeks_start(today, AVERAGED_WEEKS), today.days),
        ) as u128,
        recent: total(s, Measure::Pay, Pick::Window(day_back(today, 28), day_back(today, 1))) as u128,
        older: total(s, Measure::Pay, Pick::Window(day_back(today, 56), day_back(today, 29))) as u128,
    }
}

/// Analyses the sessions of the last eight weeks against the goals.
pub fn get_financial_analysis(
    entries: &Vec<DatedSession>,
    goals: &Vec<FinancialGoal>,
    today: Date,
) -> (r: FinancialAnalysis)
    ensures
        r.analyses(income_figures(entries@, today), goals@),
{
    let w = trailing_weeks(today, AVERAGED_WEEKS);
    let averaged = Pick::Window(w.0.days, w.1.days);
    let f = IncomeFigures {
        minutes: minutes_of(entries, &averaged),
        income: total_of(entries, Measure::Pay, &averaged),
        recent: total_of(entries, Measure::Pay, &Pick::Window(today.back(28), today.back(1))),
        older: total_of(entries, Measure::Pay, &Pick::Window(today.back(56), today.back(29))),
    };
    analyse_finances(f, goals)
}

impl InsightCategory {
    /// The word for a category.
    pub open spec fn label(self) -> Seq<char> {
        match self {
            InsightCategory::Income => "income"@,
            InsightCategory::Goals => "goals"@,
            InsightCategory::Sustainability => "sustainability"@,
        }
    }

    pub fn to_string(&self) -> (r: String)
        ensures
            r@ == self.label(),
    {
        match self {
            InsightCategory::Income => "income".to_string(),
            InsightCategory::Goals => "goals".to_string(),
            InsightCategory::Sustainability => "sustainability".to_string(),
        }
    }
}

impl InsightSeverity {
    /// The word for a severity.
    pub open spec fn label(self) -> Seq<char> {
        match self {
            InsightSeverity::Info => "info"@,
            InsightSeverity::Warning => "warning"@,
            InsightSeverity::Critical => "critical"@,
            InsightSeverity::Success => "success"@,
        }
    }

    pub fn to_string(&self) -> (r: String)
        ensures
            r@ == self.label(),
    {
        match self {
            InsightSeverity::Info => "info".to_string(),
            InsightSeverity::Warning => "warning".to_string(),
            InsightSeverity::Critical => "critical".to_string(),
            InsightSeverity::Success => "success".to_string(),
        }
    }
}

/// A figure as an amount of cents: itself, or nothing where it is below
/// zero.
pub open spec fn as_amount(v: i128) -> nat {
    if v < 0 {
        0
    } else {
        v as nat
    }
}

impl InsightDetail {
    /// The heading of an insight.
    pub open spec fn title_text(self) -> Seq<char> {
        match self {
            InsightDetail::IncomeTrend { trend, recent, older } => "Income "@ + trend.label()
                + " over past 8 weeks"@,
            InsightDetail::GoalAlmostComplete { name, progress, remaining } => name@
                + " almost complete!"@,
            InsightDetail::HighWeeklyHours { avg_minutes } => "High weekly hours"@,
        }
    }

    /// The body of an insight. Amounts of the income are in whole units,
    /// the progress in whole percent, the hours with one decimal, each
    /// rounded down.
    pub open spec fn message_text(self) -> Seq<char> {
        match self {
            InsightDetail::IncomeTrend { trend, recent, older } => "Recent 4 weeks: $"@ + decimal(
                (recent / 100) as nat,
            ) + " | Previous 4 weeks: $"@ + decimal((older / 100) as nat),
            InsightDetail::GoalAlmostComplete { name, progress, remaining } => decimal(
                as_amount(progress) / 100,
            ) + "% complete - only $"@ + money(remaining as nat) + " to go!"@,
            InsightDetail::HighWeeklyHours { avg_minutes } => "Averaging "@ + tenths(
                (avg_minutes / 6) as nat,
            ) + " hours/week. Consider sustainable pacing."@,
        }
    }

    /// What an insight suggests to do, where it suggests something.
    pub open spec fn action_text(self) -> Option<Seq<char>> {
        match self {
            InsightDetail::IncomeTrend { trend, recent, older } => if trend == Trend::Decreasing {
                Some("Consider taking on more hours or increasing rates."@)
            } else {
                None
            },
            InsightDetail::GoalAlmostComplete { name, progress, remaining } => None,
            InsightDetail::HighWeeklyHours { avg_minutes } => Some(
                "Review if all tasks are necessary or if rates could increase."@,
            ),
        }
    }
}

impl FinancialInsight {
    /// The heading of the insight.
    pub fn title(&self) -> (r: String)
        ensures
            r@ == self.detail.title_text(),
    {
        match &self.detail {
            InsightDetail::IncomeTrend { trend, recent, older } => {
                let r = "Income ".to_string().concat(trend.to_string().as_str()).concat(
                    " over past 8 weeks",
                );
                assert(r@ =~= self.detail.title_text());
                r
            },
            InsightDetail::GoalAlmostComplete { name, progress, remaining } => {
                let r = name.clone().concat(" almost complete!");
                r
            },
            InsightDetail::HighWeeklyHours { avg_minutes } => "High weekly hours".to_string(),
        }
    }

    /// The body of the insight.
    pub fn message(&self) -> (r: String)
        ensures
            r@ == self.detail.message_text(),
    {
        match &self.detail {
            InsightDetail::IncomeTrend { trend, recent, older } => {
                let r = "Recent 4 weeks: $".to_string().concat(
                    decimal_text(*recent / 100).as_str(),
                ).concat(" | Previous 4 weeks: $").concat(decimal_text(*older / 100).as_str());
                assert(r@ =~= self.detail.message_text());
                r
            },
            InsightDetail::GoalAlmostComplete { name, progress, remaining } => {
                let reached: u128 = if *progress < 0 {
                    0
                } else {
                    *progress as u128
                };
                let r = decimal_text(reached / 100).concat("% complete - only $").concat(
                    money_text(*remaining as u128).as_str(),
                ).concat(" to go!");
                assert(r@ =~= self.detail.message_text());
                r
            },
            InsightDetail::HighWeeklyHours { avg_minutes } => {
                let r = "Averaging ".to_string().concat(
                    tenths_text(*avg_minutes / 6).as_str(),
                ).concat(" hours/week. Consider sustainable pacing.");
                assert(r@ =~= self.detail.message_text());
                r
            },
        }
    }

    /// What the insight suggests to do, where it suggests something.
    pub fn action(&self) -> (r: Option<String>)
        ensures
            match r {
                Some(t) => self.detail.action_text() == Some(t@),
                None => self.detail.action_text().is_none(),
            },
    {
        match &self.detail {
            InsightDetail::IncomeTrend { trend, recent, older } => match trend {
                Trend::Decreasing => Some(
                    "Consider taking on more hours or increasing rates.".to_string(),
                ),
                _ => None,
            },
            InsightDetail::GoalAlmostComplete { name, progress, remaining } => None,
            InsightDetail::HighWeeklyHours { avg_minutes } => Some(
                "Review if all tasks are necessary or if rates could increase.".to_string(),
            ),
        }
    }
}

impl Recommendation {
    /// The recommendation in words.
    pub open spec fn text(self) -> Seq<char> {
        match self {
            Recommendation::ClearGoals { weeks, remaining } => "At current pace, all goals complete in ~"@
                + decimal(weeks as nat) + " weeks ($"@ + money(remaining as nat) + " remaining)"@,
            Recommendation::ReviewPipeline => "Income trending down. Review project pipeline."@,
        }
    }

    /// Writes the recommendation in words.
    pub fn message(&self) -> (r: String)
        ensures
            r@ == self.text(),
    {
        match self {
            Recommendation::ClearGoals { weeks, remaining } => {
                let r = "At current pace, all goals complete in ~".to_string().concat(
                    decimal_text(*weeks).as_str(),
                ).concat(" weeks ($").concat(money_text(*remaining).as_str()).concat(" remaining)");
                assert(r@ =~= self.text());
                r
            },
            Recommendation::ReviewPipeline => "Income trending down. Review project pipeline.".to_string(),
        }
    }
}

} // verus!
