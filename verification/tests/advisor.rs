use chronodesk::advisor::{
    analyse_finances, calculate_avg_weekly_hours, calculate_avg_weekly_income, calculate_goal_eta,
    classify_trend, find_goal, get_current_financial_baseline, get_financial_analysis,
    get_goal_eta, sum_remaining, total_hours_for_date, total_pay_for_date, trailing_weeks,
    FinancialInsight, GoalEta, IncomeFigures, InsightCategory, InsightDetail, InsightSeverity,
    LookupError, Recommendation, Trend,
};
use chronodesk::date::Date;
use chronodesk::models::{FinancialGoal, GoalType, PayType, WorkSession};
use chronodesk::timeline::{resolve_all, DatedSession};

fn day(text: &str) -> Date {
    Date::parse(text).unwrap()
}

fn paid(date: Date, minutes: u16, cents: u32) -> WorkSession {
    WorkSession {
        id: 1,
        session_type_id: 1,
        session_type_name: None,
        date: date.to_iso_string().unwrap(),
        project_name: "Site".to_string(),
        minutes,
        description: None,
        pay_type: Some(PayType::Fixed),
        hourly_rate: None,
        fixed_amount: Some(cents),
    }
}

fn goal(id: i64, name: &str, target: i64, current: i64) -> FinancialGoal {
    FinancialGoal {
        id,
        goal_type: GoalType::Purchase,
        name: name.to_string(),
        target_amount: target,
        current_amount: current,
        created_date: "2024-01-01".to_string(),
        target_date: None,
    }
}

fn history(today: Date) -> Vec<DatedSession> {
    resolve_all(vec![
        paid(today, 60, 4000),
        paid(today.plus_days(-1).unwrap(), 60, 110_100),
        paid(today.plus_days(-30).unwrap(), 60, 100_000),
        paid(today.plus_days(-57).unwrap(), 60, 999_999),
        paid(today.plus_days(1).unwrap(), 60, 888_888),
    ])
}

#[test]
fn trailing_weeks_end_today() {
    let today = day("2024-03-15");
    assert_eq!(trailing_weeks(today, 4), (day("2024-02-17"), today));
    assert_eq!(trailing_weeks(today, 1), (day("2024-03-09"), today));
    assert_eq!(trailing_weeks(Date { days: i32::MIN + 5 }, 4).0, Date { days: i32::MIN });
}

#[test]
fn totals_for_a_date() {
    let today = day("2024-03-15");
    let mut entries = history(today);
    entries.push(DatedSession::resolve(paid(today, 25, 6)));
    assert_eq!(total_hours_for_date(&entries, today), 85);
    assert_eq!(total_pay_for_date(&entries, today), 4006);
    assert_eq!(total_hours_for_date(&entries, day("2024-03-10")), 0);
    assert_eq!(total_pay_for_date(&entries, day("2024-03-10")), 0);
}

#[test]
fn weekly_averages_divide_four_weeks_by_four() {
    let today = day("2024-03-15");
    let entries = history(today);
    assert_eq!(calculate_avg_weekly_income(&entries, today), 28_525);
    assert_eq!(calculate_avg_weekly_hours(&entries, today), 30);
    // one session in one of the four weeks is still divided by four
    let one = resolve_all(vec![paid(today.plus_days(-27).unwrap(), 100, 1000)]);
    assert_eq!(calculate_avg_weekly_income(&one, today), 250);
    assert_eq!(calculate_avg_weekly_hours(&one, today), 25);
    let out = resolve_all(vec![paid(today.plus_days(-28).unwrap(), 100, 1000)]);
    assert_eq!(calculate_avg_weekly_income(&out, today), 0);
    assert_eq!(calculate_avg_weekly_hours(&Vec::new(), today), 0);
}

#[test]
fn baseline_rate_is_income_over_hours() {
    let today = day("2024-03-15");
    assert_eq!(get_current_financial_baseline(&history(today), today), (30, 57_050));
    assert_eq!(get_current_financial_baseline(&Vec::new(), today), (0, 3000));
}

#[test]
fn trend_must_exceed_a_tenth() {
    assert_eq!(classify_trend(110_000, 100_000), Trend::Stable);
    assert_eq!(classify_trend(110_100, 100_000), Trend::Increasing);
    assert_eq!(classify_trend(110_001, 100_000), Trend::Increasing);
    assert_eq!(classify_trend(1100, 1000), Trend::Stable);
    assert_eq!(classify_trend(1101, 1000), Trend::Increasing);
    assert_eq!(classify_trend(90_000, 100_000), Trend::Stable);
    assert_eq!(classify_trend(89_999, 100_000), Trend::Decreasing);
    assert_eq!(classify_trend(0, 0), Trend::Stable);
    assert_eq!(classify_trend(1, 0), Trend::Increasing);
    assert_eq!(classify_trend(0, 1), Trend::Decreasing);
    assert_eq!(Trend::Increasing.to_string(), "increasing");
    assert_eq!(Trend::Stable.to_string(), "stable");
    assert_eq!(Trend::Decreasing.to_string(), "decreasing");
}

#[test]
fn goal_eta_in_weeks_months_years() {
    let g = |remaining: i64| goal(1, "Car", remaining, 0);
    assert_eq!(calculate_goal_eta(&g(75_000), 0), None);
    assert_eq!(calculate_goal_eta(&g(0), 30_000), Some(GoalEta::Complete));
    assert_eq!(calculate_goal_eta(&goal(1, "Car", 10, 20), 30_000), Some(GoalEta::Complete));
    assert_eq!(calculate_goal_eta(&g(1), 30_000), Some(GoalEta::Weeks(1)));
    assert_eq!(calculate_goal_eta(&g(75_000), 30_000), Some(GoalEta::Weeks(3)));
    assert_eq!(calculate_goal_eta(&g(90_000), 30_000), Some(GoalEta::Weeks(3)));
    assert_eq!(calculate_goal_eta(&g(90_001), 30_000), Some(GoalEta::Months(1)));
    assert_eq!(calculate_goal_eta(&g(5 * 30_000), 30_000), Some(GoalEta::Months(2)));
    assert_eq!(calculate_goal_eta(&g(51 * 30_000), 30_000), Some(GoalEta::Months(12)));
    assert_eq!(calculate_goal_eta(&g(52 * 30_000), 30_000), Some(GoalEta::Years(1)));
    assert_eq!(calculate_goal_eta(&g(52 * 30_000 + 1), 30_000), Some(GoalEta::Years(2)));
    assert_eq!(calculate_goal_eta(&g(i64::MAX), 1), Some(GoalEta::Years((i64::MAX as u128 + 51) / 52)));
}

#[test]
fn goal_eta_in_words() {
    assert_eq!(GoalEta::Complete.to_string(), "Goal Complete!");
    assert_eq!(GoalEta::Weeks(3).to_string(), "3 weeks");
    assert_eq!(GoalEta::Months(11).to_string(), "11 months");
    assert_eq!(GoalEta::Years(2).to_string(), "2 years");
}

#[test]
fn goal_eta_of_a_goal_by_id() {
    let today = day("2024-03-15");
    let entries = history(today);
    let goals = vec![goal(4, "Car", 100_000, 0), goal(9, "Trip", 28_525, 0), goal(9, "Twin", 1, 0)];
    assert_eq!(get_goal_eta(&goals, 4, &entries, today), Ok(Some(GoalEta::Months(1))));
    assert_eq!(get_goal_eta(&goals, 9, &entries, today), Ok(Some(GoalEta::Weeks(1))));
    assert_eq!(get_goal_eta(&goals, 4, &Vec::new(), today), Ok(None));
    assert_eq!(get_goal_eta(&goals, 5, &entries, today), Err(LookupError::GoalNotFound));
    assert_eq!(get_goal_eta(&Vec::new(), 4, &entries, today), Err(LookupError::GoalNotFound));
    assert_eq!(LookupError::GoalNotFound.message(), "Goal not found");
    assert_eq!(find_goal(&goals, 9), Some(1));
    assert_eq!(find_goal(&goals, 0), None);
}

#[test]
fn analysis_of_eight_weeks() {
    let today = day("2024-03-15");
    let goals = vec![
        goal(1, "Car", 100_000, 95_000),
        goal(2, "Done", 100_000, 100_000),
        goal(3, "Trip", 200_000, 50_000),
        goal(4, "Bike", 1000, 900),
    ];
    let r = get_financial_analysis(&history(today), &goals, today);
    assert_eq!(r.avg_weekly_minutes, 30);
    assert_eq!(r.avg_weekly_income, 28_525);
    assert_eq!(r.projected_monthly_income, 123_513);
    assert_eq!(r.projected_yearly_income, 1_483_300);
    assert_eq!(r.income_trend, Trend::Increasing);
    assert_eq!(r.insights.len(), 3);
    assert_eq!(r.insights[0].category, InsightCategory::Income);
    assert_eq!(r.insights[0].severity, InsightSeverity::Success);
    assert_eq!(r.insights[0].title(), "Income increasing over past 8 weeks");
    assert_eq!(r.insights[0].message(), "Recent 4 weeks: $1101 | Previous 4 weeks: $1000");
    assert_eq!(r.insights[0].action(), None);
    assert_eq!(r.insights[1].category, InsightCategory::Goals);
    assert_eq!(r.insights[1].severity, InsightSeverity::Success);
    assert_eq!(r.insights[1].title(), "Car almost complete!");
    assert_eq!(r.insights[1].message(), "95% complete - only $50.00 to go!");
    assert_eq!(r.insights[1].action(), None);
    assert_eq!(r.insights[2].title(), "Bike almost complete!");
    assert_eq!(r.insights[2].message(), "90% complete - only $1.00 to go!");
    assert_eq!(sum_remaining(&goals), 155_100);
    assert_eq!(r.recommendations, vec![Recommendation::ClearGoals { weeks: 5, remaining: 155_100 }]);
    assert_eq!(
        r.recommendations[0].message(),
        "At current pace, all goals complete in ~5 weeks ($1551.00 remaining)"
    );
}

#[test]
fn analysis_without_sessions_or_goals() {
    let today = day("2024-03-15");
    let r = get_financial_analysis(&Vec::new(), &Vec::new(), today);
    assert_eq!(r.avg_weekly_minutes, 0);
    assert_eq!(r.avg_weekly_income, 0);
    assert_eq!(r.projected_monthly_income, 0);
    assert_eq!(r.projected_yearly_income, 0);
    assert_eq!(r.income_trend, Trend::Stable);
    assert!(r.insights.is_empty());
    assert!(r.recommendations.is_empty());
}

#[test]
fn analysis_of_a_falling_income_and_long_hours() {
    let f = IncomeFigures { minutes: 12_004, income: 40_000, recent: 40_000, older: 80_000 };
    let r = analyse_finances(f, &Vec::new());
    assert_eq!(r.avg_weekly_minutes, 3001);
    assert_eq!(r.income_trend, Trend::Decreasing);
    assert_eq!(r.insights.len(), 2);
    assert_eq!(r.insights[0].severity, InsightSeverity::Warning);
    assert_eq!(r.insights[0].title(), "Income decreasing over past 8 weeks");
    assert_eq!(r.insights[0].message(), "Recent 4 weeks: $400 | Previous 4 weeks: $800");
    assert_eq!(
        r.insights[0].action(),
        Some("Consider taking on more hours or increasing rates.".to_string())
    );
    assert_eq!(r.insights[1].category, InsightCategory::Sustainability);
    assert_eq!(r.insights[1].severity, InsightSeverity::Warning);
    assert_eq!(r.insights[1].title(), "High weekly hours");
    assert_eq!(r.insights[1].message(), "Averaging 50.0 hours/week. Consider sustainable pacing.");
    assert_eq!(
        r.insights[1].action(),
        Some("Review if all tasks are necessary or if rates could increase.".to_string())
    );
    assert_eq!(r.recommendations, vec![Recommendation::ReviewPipeline]);
    assert_eq!(r.recommendations[0].message(), "Income trending down. Review project pipeline.");
    let done = vec![goal(1, "Car", 100, 100), goal(2, "Trip", 100, 300)];
    let r = analyse_finances(IncomeFigures { minutes: 0, income: 40_000, recent: 5, older: 5 }, &done);
    assert_eq!(r.recommendations, Vec::new());
    let calm = analyse_finances(IncomeFigures { minutes: 12_003, income: 3, recent: 5, older: 5 }, &Vec::new());
    assert_eq!(calm.avg_weekly_minutes, 3000);
    assert_eq!(calm.avg_weekly_income, 0);
    assert!(calm.insights.is_empty());
    let stable = analyse_finances(IncomeFigures { minutes: 0, income: 4, recent: 5, older: 5 }, &Vec::new());
    assert_eq!(stable.insights.len(), 1);
    assert_eq!(stable.insights[0].severity, InsightSeverity::Info);
    assert_eq!(stable.insights[0].title(), "Income stable over past 8 weeks");
}

#[test]
fn the_trend_compares_the_four_weeks_before_today_with_the_four_before() {
    let today = day("2024-03-15");
    let at = |back: i64| resolve_all(vec![paid(today.plus_days(-back).unwrap(), 60, 500)]);
    let trend = |back: i64| get_financial_analysis(&at(back), &Vec::new(), today).income_trend;
    assert_eq!(trend(0), Trend::Stable);
    assert_eq!(trend(1), Trend::Increasing);
    assert_eq!(trend(28), Trend::Increasing);
    assert_eq!(trend(29), Trend::Decreasing);
    assert_eq!(trend(56), Trend::Decreasing);
    assert_eq!(trend(57), Trend::Stable);
}

#[test]
fn insight_labels() {
    assert_eq!(InsightCategory::Income.to_string(), "income");
    assert_eq!(InsightCategory::Goals.to_string(), "goals");
    assert_eq!(InsightCategory::Sustainability.to_string(), "sustainability");
    assert_eq!(InsightSeverity::Info.to_string(), "info");
    assert_eq!(InsightSeverity::Warning.to_string(), "warning");
    assert_eq!(InsightSeverity::Critical.to_string(), "critical");
    assert_eq!(InsightSeverity::Success.to_string(), "success");
    let below = FinancialInsight {
        category: InsightCategory::Goals,
        severity: InsightSeverity::Success,
        detail: InsightDetail::GoalAlmostComplete { name: "x".to_string(), progress: -5, remaining: 7 },
    };
    assert_eq!(below.message(), "0% complete - only $0.07 to go!");
}
