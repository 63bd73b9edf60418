//! The financial simulator: what a week of given hours, rate and expenses
//! leaves over, how sustainable that is, and when it completes each goal.

use vstd::prelude::*;
use vstd::string::*;
use crate::date::Date;
use crate::math::least;
use crate::models::{FinancialGoal, remaining_of};
use crate::text::{money, money_text};

verus! {

/// When a goal would be complete at the simulated savings.
#[derive(Debug, Clone)]
pub struct GoalProjection {
    pub goal_id: i64,
    pub goal_name: String,
    /// Cents left to reach the target.
    pub remaining: u64,
    /// Weeks until the goal is complete, in hundredths of a week, rounded
    /// down; `None` where nothing is saved.
    pub weeks_to_complete: Option<u128>,
    /// The day of completion; `None` where nothing is saved, or where the
    /// day lies beyond the days that can be numbered.
    pub completion_date: Option<Date>,
}

/// A scenario to simulate.
#[derive(Debug, Clone)]
pub struct FinancialScenario {
    /// Minutes worked per week.
    pub minutes_per_week: u32,
    /// Cents earned per hour.
    pub hourly_rate: u32,
    /// Cents spent per week.
    pub weekly_expenses: u64,
    pub goals: Vec<GoalProjection>,
}

/// What the simulator has to say about a scenario.
#[derive(Debug, Clone, Copy, PartialEq, Eq, Structural)]
pub enum SimulationInsight {
    /// More is spent than earned; the shortfall is in cents per week.
    Deficit { shortfall: u128 },
    /// Less than a tenth of the income is saved.
    LowSavingsRate,
    /// More than three tenths of the income are saved.
    HighSavingsRate,
    /// More than 50 hours are worked per week.
    OverworkRisk,
    /// Fewer than 20 hours are worked per week, at a deficit.
    IncreaseHours,
    /// More than 40 hours are worked per week at under 25.00 per hour.
    RaiseRate,
}

/// The result of a simulation. Money is in cents.
#[derive(Debug, Clone)]
pub struct SimulationResult {
    pub weekly_income: u64,
    pub weekly_savings: i128,
    pub monthly_income: i128,
    pub monthly_savings: i128,
    pub yearly_income: i128,
    pub yearly_savings: i128,
    pub goal_projections: Vec<GoalProjection>,
    /// From 0 to 10000, in hundredths of a point.
    pub sustainability_score: u32,
    pub insights: Vec<SimulationInsight>,
}

/// The income of a week in cents, rounded down.
pub open spec fn weekly_income_of(minutes_per_week: int, hourly_rate: int) -> int {
    (minutes_per_week * hourly_rate) / 60
}

/// `a / b` rounded toward zero, for a positive `b`.
pub open spec fn toward_zero(a: int, b: int) -> int {
    if a >= 0 {
        a / b
    } else {
        -((-a) / b)
    }
}

/// A weekly amount taken over a month of 4.33 weeks.
pub open spec fn monthly_of(weekly: int) -> int {
    toward_zero(weekly * 433, 100)
}

/// A weekly amount taken over a year of 52 weeks.
pub open spec fn yearly_of(weekly: int) -> int {
    weekly * 52
}

/// The sustainability score in hundredths of a point: 0 without income;
/// half of what the income covers of the expenses, at most 5000, where
/// nothing is saved; 5000 and half of the share saved otherwise.
pub open spec fn sustainability_of(income: int, expenses: int) -> int {
    let savings = income - expenses;
    if income == 0 {
        0
    } else if savings <= 0 {
        least(5000, (income * 5000) / expenses)
    } else {
        least(10000, 5000 + (savings * 5000) / income)
    }
}

/// The insights of a scenario: at most one on the savings, at most one on
/// the hours, at most one on the rate, in that order.
pub open spec fn insights_of(
    minutes_per_week: int,
    hourly_rate: int,
    income: int,
    savings: int,
) -> Seq<SimulationInsight> {
    let a = Seq::<SimulationInsight>::empty();
    let a = if savings < 0 {
        a.push(SimulationInsight::Deficit { shortfall: (-savings) as u128 })
    } else if savings * 10 < income {
        a.push(SimulationInsight::LowSavingsRate)
    } else if savings * 10 > income * 3 {
        a.push(SimulationInsight::HighSavingsRate)
    } else {
        a
    };
    let a = if minutes_per_week > 3000 {
        a.push(SimulationInsight::OverworkRisk)
    } else if minutes_per_week < 1200 && savings < 0 {
        a.push(SimulationInsight::IncreaseHours)
    } else {
        a
    };
    if hourly_rate < 2500 && minutes_per_week > 2400 {
        a.push(SimulationInsight::RaiseRate)
    } else {
        a
    }
}

/// The weeks that `remaining` cents take at `savings` cents a week, in
/// hundredths of a week.
pub open spec fn weeks_to_complete_of(remaining: int, savings: int) -> Option<u128> {
    if savings > 0 {
        Some(((remaining * 100) / savings) as u128)
    } else {
        None
    }
}

/// The day on which `remaining` cents are saved at `savings` cents a week:
/// `today` and seven days for each week, a started day not counted.
pub open spec fn completion_of(today: Date, remaining: int, savings: int) -> Option<Date> {
    if savings > 0 && today.days + (remaining * 7) / savings <= i32::MAX {
        Some(Date { days: (today.days + (remaining * 7) / savings) as i32 })
    } else {
        None
    }
}

/// Whether a projection is that of a goal at the given savings.
pub open spec fn projects(p: GoalProjection, g: FinancialGoal, today: Date, savings: int) -> bool {
    &&& p.goal_id == g.id
    &&& p.goal_name == g.name
    &&& p.remaining == remaining_of(g.target_amount as int, g.current_amount as int)
    &&& p.weeks_to_complete == weeks_to_complete_of(p.remaining as int, savings)
    &&& p.completion_date == completion_of(today, p.remaining as int, savings)
}

impl SimulationResult {
    /// Whether this is the result of simulating the scenario.
    pub open spec fn simulates(
        &self,
        goals: Seq<FinancialGoal>,
        today: Date,
        minutes_per_week: u32,
        hourly_rate: u32,
        weekly_expenses: u64,
    ) -> bool {
        let income = weekly_income_of(minutes_per_week as int, hourly_rate as int);
        let savings = income - weekly_expenses;
        &&& self.weekly_income == income
        &&& self.weekly_savings == savings
        &&& self.monthly_income == monthly_of(income)
        &&& self.monthly_savings == monthly_of(savings)
        &&& self.yearly_income == yearly_of(income)
        &&& self.yearly_savings == yearly_of(savings)
        &&& self.sustainability_score == sustainability_of(income, weekly_expenses as int)
        &&& self.insights@ == insights_of(
            minutes_per_week as int,
            hourly_rate as int,
            income,
            savings,
        )
        &&& self.goal_projections@.len() == goals.len()
        &&& forall|k: int|
            0 <= k < goals.len() ==> projects(
                #[trigger] self.goal_projections@[k],
                goals[k],
                today,
                savings,
            )
    }
}

fn monthly(weekly: i128) -> (r: i128)
    requires
        -0x1_0000_0000_0000_0000 <= weekly <= 0x1_0000_0000_0000_0000,
    ensures
        r == monthly_of(weekly as int),
{
    if weekly >= 0 {
        ((weekly as u128 * 433) / 100) as i128
    } else {
        let size: u128 = (-weekly) as u128;
        -(((size * 433) / 100) as i128)
    }
}

/// Projects one goal at the given weekly savings.
pub fn project_goal(goal: &FinancialGoal, today: Date, savings: i128) -> (p: GoalProjection)
    ensures
        projects(p, *goal, today, savings as int),
{
    let remaining = goal.remaining_amount();
    let (weeks, date) = if savings > 0 {
        let rate: u128 = savings as u128;
        let weeks: u128 = (remaining as u128 * 100) / rate;
        let days: u128 = (remaining as u128 * 7) / rate;
        let date = if days > 0x1_0000_0000 {
            None
        } else {
            match today.plus_days(days as i64) {
                Some(d) => Some(d),
                None => None,
            }
        };
        (Some(weeks), date)
    } else {
        (None, None)
    };
    GoalProjection {
        goal_id: goal.id,
        goal_name: goal.name.clone(),
        remaining,
        weeks_to_complete: weeks,
        completion_date: date,
    }
}

/// Simulates a week of `minutes_per_week` minutes at `hourly_rate` cents
/// an hour against `weekly_expenses` cents, and projects each goal.
pub fn simulate_financial_scenario(
    goals: &Vec<FinancialGoal>,
    today: Date,
    minutes_per_week: u32,
    hourly_rate: u32,
    weekly_expenses: u64,
) -> (r: SimulationResult)
    ensures
        r.simulates(goals@, today, minutes_per_week, hourly_rate, weekly_expenses),
{
    let minutes: u64 = minutes_per_week as u64;
    let rate: u64 = hourly_rate as u64;
    assert(minutes * rate <= 0xffff_ffff * 0xffff_ffff) by (nonlinear_arith)
        requires
            0 <= minutes <= 0xffff_ffff,
            0 <= rate <= 0xffff_ffff,
    ;
    let income: u64 = minutes * rate / 60;
    let savings: i128 = income as i128 - weekly_expenses as i128;

    let mut projections: Vec<GoalProjection> = Vec::new();
    let mut k: usize = 0;
    while k < goals.len()
        invariant
            k <= goals@.len(),
            projections@.len() == k,
            forall|j: int|
                0 <= j < k ==> projects(#[trigger] projections@[j], goals@[j], today, savings as int),
        decreases goals@.len() - k,
    {
        projections.push(project_goal(&goals[k], today, savings));
        k = k + 1;
    }

    let score: u128 = if income == 0 {
        0
    } else if savings <= 0 {
        let covered: u128 = (income as u128 * 5000) / (weekly_expenses as u128);
        if covered > 5000 {
            5000
        } else {
            covered
        }
    } else {
        let saved: u128 = (savings as u128 * 5000) / (income as u128);
        if saved > 5000 {
            10000
        } else {
            5000 + saved
        }
    };

    let mut insights: Vec<SimulationInsight> = Vec::new();
    if savings < 0 {
        insights.push(SimulationInsight::Deficit { shortfall: (-savings) as u128 });
    } else if savings * 10 < income as i128 {
        insights.push(SimulationInsight::LowSavingsRate);
    } else if savings * 10 > income as i128 * 3 {
        insights.push(SimulationInsight::HighSavingsRate);
    }
    if minutes_per_week > 3000 {
        insights.push(SimulationInsight::OverworkRisk);
    } else if minutes_per_week < 1200 && savings < 0 {
        insights.push(SimulationInsight::IncreaseHours);
    }
    if hourly_rate < 2500 && minutes_per_week > 2400 {
        insights.push(SimulationInsight::RaiseRate);
    }
    assert(insights@ =~= insights_of(
        minutes_per_week as int,
        hourly_rate as int,
        income as int,
        savings as int,
    ));

    SimulationResult {
        weekly_income: income,
        weekly_savings: savings,
        monthly_income: monthly(income as i128),
        monthly_savings: monthly(savings),
        yearly_income: income as i128 * 52,
        yearly_savings: savings * 52,
        goal_projections: projections,
        sustainability_score: score as u32,
        insights,
    }
}

impl SimulationInsight {
    /// The insight in words.
    pub open spec fn text(self) -> Seq<char> {
        match self {
            SimulationInsight::Deficit { shortfall } => "\u{26A0}\u{FE0F} Deficit of $"@ + money(shortfall as nat)
                + "/week. You need $"@ + money(shortfall as nat)
                + " more income or reduce expenses."@,
            SimulationInsight::LowSavingsRate => "\u{1F4A1} Savings rate under 10%. Consider reducing expenses."@,
            SimulationInsight::HighSavingsRate => "\u{2705} Great savings rate! Over 30% of income saved."@,
            SimulationInsight::OverworkRisk => "\u{26A0}\u{FE0F} Working over 50 hrs/week risks burnout."@,
            SimulationInsight::IncreaseHours => "\u{1F4A1} Consider increasing hours to close the deficit."@,
            SimulationInsight::RaiseRate => "\u{1F4A1} Low rate + long hours. Consider raising your rate."@,
        }
    }

    /// Writes the insight in words.
    pub fn message(&self) -> (r: String)
        ensures
            r@ == self.text(),
    {
        match self {
            SimulationInsight::Deficit { shortfall } => {
                let amount = money_text(*shortfall);
                let r = "\u{26A0}\u{FE0F} Deficit of $".to_string().concat(amount.as_str()).concat(
                    "/week. You need $",
                ).concat(amount.as_str()).concat(" more income or reduce expenses.");
                assert(r@ =~= self.text());
                r
            },
            SimulationInsight::LowSavingsRate => "\u{1F4A1} Savings rate under 10%. Consider reducing expenses.".to_string(),
            SimulationInsight::HighSavingsRate => "\u{2705} Great savings rate! Over 30% of income saved.".to_string(),
            SimulationInsight::OverworkRisk => "\u{26A0}\u{FE0F} Working over 50 hrs/week risks burnout.".to_string(),
            SimulationInsight::IncreaseHours => "\u{1F4A1} Consider increasing hours to close the deficit.".to_string(),
            SimulationInsight::RaiseRate => "\u{1F4A1} Low rate + long hours. Consider raising your rate.".to_string(),
        }
    }
}

} // verus!
