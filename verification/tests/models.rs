use chronodesk::models::{
    check_goal_fields, check_new_goal_fields, check_new_session_fields, check_session_fields,
    validate_contribution, FinancialGoal, GoalError, GoalType, NewGoal, NewSession,
    NewSessionType, PayType, SessionError, WorkSession,
};
use chronodesk::text::{
    decimal_text, four_digit_text, is_blank, money_text, same_text, tenths_text,
};

fn session(minutes: u16, pay_type: Option<PayType>, rate: Option<u32>, fee: Option<u32>) -> WorkSession {
    WorkSession {
        id: 1,
        session_type_id: 1,
        session_type_name: Some("Work".to_string()),
        date: "2024-01-01".to_string(),
        project_name: "Site".to_string(),
        minutes,
        description: None,
        pay_type,
        hourly_rate: rate,
        fixed_amount: fee,
    }
}

fn goal(name: &str, target: i64, current: i64) -> FinancialGoal {
    FinancialGoal {
        id: 7,
        goal_type: GoalType::Savings,
        name: name.to_string(),
        target_amount: target,
        current_amount: current,
        created_date: "2024-01-01".to_string(),
        target_date: None,
    }
}

#[test]
fn pay_type_labels() {
    assert_eq!(PayType::Unpaid.to_string(), "None");
    assert_eq!(PayType::Hourly.to_string(), "Hourly");
    assert_eq!(PayType::Fixed.to_string(), "Fixed");
}

#[test]
fn pay_type_from_string() {
    assert_eq!(PayType::from_string("None"), Ok(PayType::Unpaid));
    assert_eq!(PayType::from_string(""), Ok(PayType::Unpaid));
    assert_eq!(PayType::from_string("Hourly"), Ok(PayType::Hourly));
    assert_eq!(PayType::from_string("Fixed"), Ok(PayType::Fixed));
    assert_eq!(PayType::from_string("hourly"), Err("Invalid pay type: hourly".to_string()));
    assert_eq!(PayType::from_string("Weekly"), Err("Invalid pay type: Weekly".to_string()));
}

#[test]
fn goal_type_labels_round_trip() {
    for g in [GoalType::Debt, GoalType::Purchase, GoalType::Savings] {
        assert_eq!(GoalType::from_string(&g.to_string()), Ok(g));
    }
    assert_eq!(GoalType::Debt.to_string(), "Debt");
    assert_eq!(GoalType::from_string("Loan"), Err("Invalid goal type: Loan".to_string()));
    assert_eq!(GoalType::from_string(""), Err("Invalid goal type: ".to_string()));
}

#[test]
fn hourly_pay_is_rate_times_duration() {
    // 90 minutes at 30.00 an hour
    assert_eq!(session(90, Some(PayType::Hourly), Some(3000), None).calculate_pay(), 4500);
    // 6 minutes at 25.55 an hour: 255.5 cents, rounded down
    assert_eq!(session(6, Some(PayType::Hourly), Some(2555), Some(9)).calculate_pay(), 255);
    assert_eq!(session(90, Some(PayType::Hourly), None, Some(700)).calculate_pay(), 0);
    assert_eq!(
        session(u16::MAX, Some(PayType::Hourly), Some(u32::MAX), None).calculate_pay(),
        (u16::MAX as u64 * u32::MAX as u64) / 60
    );
}

#[test]
fn fixed_and_unpaid_pay() {
    assert_eq!(session(90, Some(PayType::Fixed), Some(3000), Some(12345)).calculate_pay(), 12345);
    assert_eq!(session(90, Some(PayType::Fixed), Some(3000), None).calculate_pay(), 0);
    assert_eq!(session(90, Some(PayType::Unpaid), Some(3000), Some(12345)).calculate_pay(), 0);
    assert_eq!(session(90, None, Some(3000), Some(12345)).calculate_pay(), 0);
}

#[test]
fn session_validate_accepts_the_bounds() {
    assert_eq!(session(6, None, None, None).validate(), Ok(()));
    assert_eq!(session(1440, None, None, None).validate(), Ok(()));
}

#[test]
fn session_validate_names_the_first_fault() {
    let mut s = session(5, None, None, None);
    assert_eq!(s.validate(), Err("Hours must be between 0.1 and 24.0".to_string()));
    s.minutes = 1441;
    assert_eq!(s.validate(), Err("Hours must be between 0.1 and 24.0".to_string()));
    s.project_name = "  \t ".to_string();
    assert_eq!(s.validate(), Err("Project name cannot be empty".to_string()));
    s.project_name = "x".to_string();
    s.minutes = 60;
    s.date = String::new();
    assert_eq!(s.validate(), Err("Date cannot be empty".to_string()));
    s.date = "whenever".to_string();
    assert_eq!(s.validate(), Ok(()));
}

#[test]
fn session_fields_are_judged_in_order() {
    assert_eq!(check_session_fields(true, 0, true), Err(SessionError::EmptyProjectName));
    assert_eq!(check_session_fields(false, 0, true), Err(SessionError::HoursOutOfRange));
    assert_eq!(check_session_fields(false, 60, true), Err(SessionError::EmptyDate));
    assert_eq!(check_session_fields(false, 60, false), Ok(()));
    assert_eq!(check_new_session_fields(true, 0), Err(SessionError::HoursOutOfRange));
    assert_eq!(check_new_session_fields(true, 60), Err(SessionError::EmptyProjectName));
    assert_eq!(check_new_session_fields(false, 60), Ok(()));
}

#[test]
fn new_session_validate() {
    let mut s = NewSession {
        session_type_id: 1,
        date: "2024-01-01".to_string(),
        project_name: " ".to_string(),
        minutes: 0,
        description: None,
        pay_type: None,
        hourly_rate: None,
        fixed_amount: None,
    };
    assert_eq!(s.validate(), Err("Hours must be between 0.1 and 24.0".to_string()));
    s.minutes = 30;
    assert_eq!(s.validate(), Err("Project name cannot be empty".to_string()));
    s.project_name = "Site".to_string();
    assert_eq!(s.validate(), Ok(()));
}

#[test]
fn goal_progress_in_hundredths_of_a_percent() {
    assert_eq!(goal("g", 100_000, 25_000).progress_percent(), 2500);
    assert_eq!(goal("g", 30_000, 10_000).progress_percent(), 3333);
    assert_eq!(goal("g", 100_000, 100_000).progress_percent(), 10000);
    assert_eq!(goal("g", 100_000, 250_000).progress_percent(), 10000);
    assert_eq!(goal("g", 0, 250_000).progress_percent(), 0);
    assert_eq!(goal("g", -5, 250_000).progress_percent(), 0);
    assert_eq!(goal("g", i64::MAX, i64::MAX).progress_percent(), 10000);
}

#[test]
fn goal_progress_below_zero_rounds_down() {
    assert_eq!(goal("g", 30_000, -10_000).progress_percent(), -3334);
    assert_eq!(goal("g", 100, -100).progress_percent(), -10000);
    assert_eq!(goal("g", 1, i64::MIN).progress_percent(), -(1i128 << 63) * 10000);
}

#[test]
fn goal_remaining_is_never_negative() {
    assert_eq!(goal("g", 100_000, 25_000).remaining_amount(), 75_000);
    assert_eq!(goal("g", 100_000, 100_000).remaining_amount(), 0);
    assert_eq!(goal("g", 100_000, 100_001).remaining_amount(), 0);
    assert_eq!(goal("g", i64::MAX, i64::MIN).remaining_amount(), u64::MAX);
}

#[test]
fn goal_validate_names_the_first_fault() {
    assert_eq!(goal("Car", 100, 0).validate(), Ok(()));
    assert_eq!(goal(" ", 0, -1).validate(), Err("Goal name cannot be empty".to_string()));
    assert_eq!(goal("Car", 0, -1).validate(), Err("Target amount must be positive".to_string()));
    assert_eq!(goal("Car", 1, -1).validate(), Err("Current amount cannot be negative".to_string()));
    assert_eq!(check_goal_fields(true, 0, -1), Err(GoalError::EmptyName));
    assert_eq!(check_new_goal_fields(true, 0), Err(GoalError::TargetNotPositive));
    assert_eq!(check_new_goal_fields(true, 1), Err(GoalError::EmptyName));
}

#[test]
fn new_goal_and_session_type_validate() {
    let mut g = NewGoal {
        goal_type: GoalType::Debt,
        name: "".to_string(),
        target_amount: 0,
        current_amount: 0,
        created_date: "2024-01-01".to_string(),
        target_date: None,
    };
    assert_eq!(g.validate(), Err("Target amount must be positive".to_string()));
    g.target_amount = 5;
    assert_eq!(g.validate(), Err("Goal name cannot be empty".to_string()));
    g.name = "Loan".to_string();
    assert_eq!(g.validate(), Ok(()));
    let t = NewSessionType { name: "\n".to_string(), color: "#fff".to_string(), hourly_rate: None };
    assert_eq!(t.validate(), Err("Session type name cannot be empty".to_string()));
    let t = NewSessionType { name: "Work".to_string(), color: "#fff".to_string(), hourly_rate: None };
    assert_eq!(t.validate(), Ok(()));
}

#[test]
fn contribution_must_be_positive() {
    assert_eq!(validate_contribution(1), Ok(()));
    assert_eq!(validate_contribution(0), Err("Contribution amount must be positive".to_string()));
    assert_eq!(validate_contribution(-4), Err("Contribution amount must be positive".to_string()));
}

#[test]
fn is_blank_trims_white_space() {
    assert!(is_blank(""));
    assert!(is_blank(" \t\r\n"));
    assert!(is_blank("\u{2003}"));
    assert!(!is_blank(" a "));
    assert!(!is_blank("_"));
}

#[test]
fn same_text_compares_characters() {
    assert!(same_text("", ""));
    assert!(same_text("abc", "abc"));
    assert!(!same_text("abc", "abd"));
    assert!(!same_text("abc", "ab"));
}

#[test]
fn numbers_in_words() {
    assert_eq!(decimal_text(0), "0");
    assert_eq!(decimal_text(7), "7");
    assert_eq!(decimal_text(10), "10");
    assert_eq!(decimal_text(9081726354), "9081726354");
    assert_eq!(decimal_text(u128::MAX), u128::MAX.to_string());
    assert_eq!(money_text(0), "0.00");
    assert_eq!(money_text(5), "0.05");
    assert_eq!(money_text(1205), "12.05");
    assert_eq!(money_text(123456), "1234.56");
    assert_eq!(tenths_text(75), "7.5");
    assert_eq!(tenths_text(3), "0.3");
    assert_eq!(four_digit_text(1), "0001");
    assert_eq!(four_digit_text(42), "0042");
    assert_eq!(four_digit_text(999), "0999");
    assert_eq!(four_digit_text(1000), "1000");
    assert_eq!(four_digit_text(123456), "123456");
}
