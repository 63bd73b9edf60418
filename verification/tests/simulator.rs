use chronodesk::date::Date;
use chronodesk::models::{FinancialGoal, GoalType};
use chronodesk::simulator::{project_goal, simulate_financial_scenario, SimulationInsight};

fn day(text: &str) -> Date {
    Date::parse(text).unwrap()
}

fn goal(id: i64, name: &str, target: i64, current: i64) -> FinancialGoal {
    FinancialGoal {
        id,
        goal_type: GoalType::Savings,
        name: name.to_string(),
        target_amount: target,
        current_amount: current,
        created_date: "2024-01-01".to_string(),
        target_date: None,
    }
}

#[test]
fn forty_hours_at_twenty_against_five_hundred() {
    let r = simulate_financial_scenario(&Vec::new(), day("2024-03-15"), 2400, 2000, 50_000);
    assert_eq!(r.weekly_income, 80_000);
    assert_eq!(r.weekly_savings, 30_000);
    assert_eq!(r.sustainability_score, 6875);
    assert_eq!(r.insights, vec![SimulationInsight::HighSavingsRate]);
    assert_eq!(r.monthly_income, 346_400);
    assert_eq!(r.monthly_savings, 129_900);
    assert_eq!(r.yearly_income, 4_160_000);
    assert_eq!(r.yearly_savings, 1_560_000);
    assert!(r.goal_projections.is_empty());
}

#[test]
fn no_income_scores_nothing() {
    let r = simulate_financial_scenario(&Vec::new(), day("2024-03-15"), 0, 2000, 0);
    assert_eq!(r.weekly_income, 0);
    assert_eq!(r.weekly_savings, 0);
    assert_eq!(r.sustainability_score, 0);
    assert!(r.insights.is_empty());
    let r = simulate_financial_scenario(&Vec::new(), day("2024-03-15"), 600, 0, 10_000);
    assert_eq!(r.sustainability_score, 0);
    assert_eq!(
        r.insights,
        vec![SimulationInsight::Deficit { shortfall: 10_000 }, SimulationInsight::IncreaseHours]
    );
}

#[test]
fn a_deficit_scores_by_what_the_income_covers() {
    // 10 hours at 30.00 against 400.00 a week
    let r = simulate_financial_scenario(&Vec::new(), day("2024-03-15"), 600, 3000, 40_000);
    assert_eq!(r.weekly_income, 30_000);
    assert_eq!(r.weekly_savings, -10_000);
    assert_eq!(r.sustainability_score, 3750);
    assert_eq!(r.monthly_savings, -43_300);
    assert_eq!(r.yearly_savings, -520_000);
    assert_eq!(
        r.insights,
        vec![SimulationInsight::Deficit { shortfall: 10_000 }, SimulationInsight::IncreaseHours]
    );
    assert_eq!(
        r.insights[0].message(),
        "\u{26A0}\u{FE0F} Deficit of $100.00/week. You need $100.00 more income or reduce expenses."
    );
}

#[test]
fn breaking_even_scores_fifty() {
    let r = simulate_financial_scenario(&Vec::new(), day("2024-03-15"), 1200, 3000, 60_000);
    assert_eq!(r.weekly_savings, 0);
    assert_eq!(r.sustainability_score, 5000);
    assert_eq!(r.insights, vec![SimulationInsight::LowSavingsRate]);
}

#[test]
fn saving_everything_scores_a_hundred() {
    let r = simulate_financial_scenario(&Vec::new(), day("2024-03-15"), 1200, 3000, 0);
    assert_eq!(r.sustainability_score, 10_000);
    assert_eq!(r.insights, vec![SimulationInsight::HighSavingsRate]);
}

#[test]
fn savings_rate_bounds() {
    let at = |expenses| simulate_financial_scenario(&Vec::new(), day("2024-03-15"), 600, 6000, expenses).insights;
    // income 600.00: a tenth is 60.00, three tenths are 180.00
    assert_eq!(at(54_001), vec![SimulationInsight::LowSavingsRate]);
    assert_eq!(at(54_000), Vec::new());
    assert_eq!(at(42_000), Vec::new());
    assert_eq!(at(41_999), vec![SimulationInsight::HighSavingsRate]);
    assert_eq!(at(60_001), vec![SimulationInsight::Deficit { shortfall: 1 }, SimulationInsight::IncreaseHours]);
}

#[test]
fn hours_and_rate_insights() {
    let at = |minutes, rate| simulate_financial_scenario(&Vec::new(), day("2024-03-15"), minutes, rate, 0).insights;
    assert_eq!(at(3000, 2500), vec![SimulationInsight::HighSavingsRate]);
    assert_eq!(at(3001, 2500), vec![SimulationInsight::HighSavingsRate, SimulationInsight::OverworkRisk]);
    assert_eq!(at(2400, 2499), vec![SimulationInsight::HighSavingsRate]);
    assert_eq!(at(2401, 2499), vec![SimulationInsight::HighSavingsRate, SimulationInsight::RaiseRate]);
    assert_eq!(
        at(3001, 2499),
        vec![SimulationInsight::HighSavingsRate, SimulationInsight::OverworkRisk, SimulationInsight::RaiseRate]
    );
    let short = simulate_financial_scenario(&Vec::new(), day("2024-03-15"), 1200, 100, 5000).insights;
    assert_eq!(short, vec![SimulationInsight::Deficit { shortfall: 3000 }]);
    let short = simulate_financial_scenario(&Vec::new(), day("2024-03-15"), 1199, 100, 5000).insights;
    assert_eq!(short, vec![SimulationInsight::Deficit { shortfall: 3002 }, SimulationInsight::IncreaseHours]);
}

#[test]
fn goals_are_projected_at_the_savings() {
    let today = day("2024-03-15");
    let goals = vec![goal(1, "Car", 1_000_000, 250_000), goal(2, "Done", 100, 100), goal(3, "Trip", 100_000, 0)];
    // savings 300.00 a week
    let r = simulate_financial_scenario(&goals, today, 2400, 2000, 50_000);
    assert_eq!(r.goal_projections.len(), 3);
    let car = &r.goal_projections[0];
    assert_eq!(car.goal_id, 1);
    assert_eq!(car.goal_name, "Car");
    assert_eq!(car.remaining, 750_000);
    assert_eq!(car.weeks_to_complete, Some(2500));
    assert_eq!(car.completion_date, Some(day("2024-09-06")));
    let done = &r.goal_projections[1];
    assert_eq!(done.remaining, 0);
    assert_eq!(done.weeks_to_complete, Some(0));
    assert_eq!(done.completion_date, Some(today));
    let trip = &r.goal_projections[2];
    // 1000.00 at 300.00 a week: 3.33 weeks, 23 days
    assert_eq!(trip.weeks_to_complete, Some(333));
    assert_eq!(trip.completion_date, Some(day("2024-04-07")));
}

#[test]
fn nothing_saved_projects_no_completion() {
    let today = day("2024-03-15");
    let goals = vec![goal(1, "Car", 1_000_000, 250_000)];
    let r = simulate_financial_scenario(&goals, today, 600, 3000, 30_000);
    assert_eq!(r.goal_projections[0].remaining, 750_000);
    assert_eq!(r.goal_projections[0].weeks_to_complete, None);
    assert_eq!(r.goal_projections[0].completion_date, None);
    let p = project_goal(&goals[0], today, -5);
    assert_eq!(p.weeks_to_complete, None);
    assert_eq!(p.completion_date, None);
}

#[test]
fn a_completion_beyond_the_day_line_is_none() {
    let today = day("2024-03-15");
    let p = project_goal(&goal(1, "Moon", i64::MAX, 0), today, 1);
    assert_eq!(p.remaining, i64::MAX as u64);
    assert_eq!(p.weeks_to_complete, Some(i64::MAX as u128 * 100));
    assert_eq!(p.completion_date, None);
    let edge = (i32::MAX - today.days) as i128;
    // seven cents a day take exactly `edge` days
    let p = project_goal(&goal(1, "Edge", edge as i64, 0), today, 7);
    assert_eq!(p.completion_date, Some(Date { days: i32::MAX }));
    let p = project_goal(&goal(1, "Edge", edge as i64 + 1, 0), today, 7);
    assert_eq!(p.completion_date, None);
}

#[test]
fn insights_in_words() {
    assert_eq!(
        SimulationInsight::Deficit { shortfall: 5 }.message(),
        "\u{26A0}\u{FE0F} Deficit of $0.05/week. You need $0.05 more income or reduce expenses."
    );
    assert_eq!(
        SimulationInsight::LowSavingsRate.message(),
        "\u{1F4A1} Savings rate under 10%. Consider reducing expenses."
    );
    assert_eq!(
        SimulationInsight::HighSavingsRate.message(),
        "\u{2705} Great savings rate! Over 30% of income saved."
    );
    assert_eq!(
        SimulationInsight::OverworkRisk.message(),
        "\u{26A0}\u{FE0F} Working over 50 hrs/week risks burnout."
    );
    assert_eq!(
        SimulationInsight::IncreaseHours.message(),
        "\u{1F4A1} Consider increasing hours to close the deficit."
    );
    assert_eq!(
        SimulationInsight::RaiseRate.message(),
        "\u{1F4A1} Low rate + long hours. Consider raising your rate."
    );
}
