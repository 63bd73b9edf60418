use chronodesk::analytics::{
    category_breakdown, category_names, daily_hours, get_analytics, get_pay_summary,
    get_today_summary, weekday_breakdown,
};
use chronodesk::date::Date;
use chronodesk::models::{PayType, SessionType, WorkSession};
use chronodesk::timeline::{
    active_days, count_of, insert_day, is_picked, longest_of, minutes_of, resolve_all, total_of,
    DatedSession, Measure, Pick,
};

fn day(text: &str) -> Date {
    Date::parse(text).unwrap()
}

fn session(
    id: i64,
    date: &str,
    minutes: u16,
    type_id: i64,
    category: Option<&str>,
    pay_type: Option<PayType>,
    rate: Option<u32>,
    fee: Option<u32>,
) -> WorkSession {
    WorkSession {
        id,
        session_type_id: type_id,
        session_type_name: category.map(|n| n.to_string()),
        date: date.to_string(),
        project_name: "Site".to_string(),
        minutes,
        description: None,
        pay_type,
        hourly_rate: rate,
        fixed_amount: fee,
    }
}

fn week_of_sessions() -> Vec<DatedSession> {
    resolve_all(vec![
        session(1, "2024-01-01", 120, 1, Some("Work"), Some(PayType::Hourly), Some(3000), None),
        session(2, "2024-01-01", 60, 2, Some("Study"), Some(PayType::Fixed), None, Some(5000)),
        session(3, "2024-01-03", 30, 9, None, None, None, None),
        session(4, "2024-01-07", 45, 1, Some("Work"), Some(PayType::Hourly), Some(1000), None),
        session(5, "garbage", 500, 1, Some("Work"), Some(PayType::Hourly), Some(6000), None),
        session(6, "2023-12-31", 200, 1, Some("Work"), Some(PayType::Fixed), None, Some(100)),
    ])
}

fn types() -> Vec<SessionType> {
    vec![
        SessionType { id: 1, name: "Work".to_string(), color: "#22C55E".to_string(), hourly_rate: Some(3000) },
        SessionType { id: 2, name: "Study".to_string(), color: "#3B82F6".to_string(), hourly_rate: None },
    ]
}

#[test]
fn resolve_all_reads_each_date() {
    let entries = week_of_sessions();
    assert_eq!(entries.len(), 6);
    assert_eq!(entries[0].day, Some(day("2024-01-01")));
    assert_eq!(entries[3].day, Some(day("2024-01-07")));
    assert_eq!(entries[4].day, None);
    assert_eq!(entries[4].session.id, 5);
    assert_eq!(entries[5].session.date, "2023-12-31");
    let one = DatedSession::resolve(session(1, "2024-02-29", 1, 1, None, None, None, None));
    assert_eq!(one.day, Some(day("2024-02-29")));
    assert!(resolve_all(Vec::new()).is_empty());
}

#[test]
fn totals_over_picks() {
    let entries = week_of_sessions();
    let lo = day("2024-01-01").days;
    let hi = day("2024-01-07").days;
    assert_eq!(total_of(&entries, Measure::Minutes, &Pick::All), 955);
    assert_eq!(total_of(&entries, Measure::Minutes, &Pick::Window(lo, hi)), 255);
    assert_eq!(minutes_of(&entries, &Pick::Window(lo, hi)), 255);
    assert_eq!(total_of(&entries, Measure::Pay, &Pick::Window(lo, hi)), 11750);
    assert_eq!(total_of(&entries, Measure::Pay, &Pick::All), 11750 + 50000 + 100);
    assert_eq!(total_of(&entries, Measure::Sessions, &Pick::Window(lo, hi)), 4);
    assert_eq!(count_of(&entries, Measure::Sessions, &Pick::Window(lo, hi)), 4);
    assert_eq!(count_of(&entries, Measure::ShortSessions, &Pick::Window(lo, hi)), 2);
    assert_eq!(count_of(&entries, Measure::ShortSessions, &Pick::All), 2);
    assert_eq!(minutes_of(&entries, &Pick::Weekday(lo, hi, 1)), 180);
    assert_eq!(minutes_of(&entries, &Pick::Weekday(lo - 1, hi, 0)), 245);
    assert_eq!(minutes_of(&entries, &Pick::Category(lo, hi, "Work".to_string())), 165);
    assert_eq!(minutes_of(&entries, &Pick::Category(lo, hi, "Unknown".to_string())), 30);
    assert_eq!(minutes_of(&entries, &Pick::OfType(lo - 1, hi, 1)), 365);
    assert_eq!(minutes_of(&entries, &Pick::Window(hi, lo)), 0);
    assert_eq!(longest_of(&entries, &Pick::Window(lo, hi)), 120);
    assert_eq!(longest_of(&entries, &Pick::All), 500);
    assert_eq!(longest_of(&entries, &Pick::Window(hi, lo)), 0);
    assert!(is_picked(&Pick::All, &entries[4]));
    assert!(!is_picked(&Pick::Window(i32::MIN, i32::MAX), &entries[4]));
}

#[test]
fn active_days_are_distinct_and_rising() {
    let entries = week_of_sessions();
    let lo = day("2024-01-01").days;
    assert_eq!(active_days(&entries, lo, lo + 6), vec![lo, lo + 2, lo + 6]);
    assert_eq!(active_days(&entries, i32::MIN, i32::MAX), vec![lo - 1, lo, lo + 2, lo + 6]);
    assert_eq!(active_days(&entries, lo + 1, lo + 1), Vec::<i32>::new());
    let mut v = vec![1, 5, 9];
    insert_day(&mut v, 5);
    assert_eq!(v, vec![1, 5, 9]);
    insert_day(&mut v, 7);
    insert_day(&mut v, 0);
    insert_day(&mut v, 10);
    assert_eq!(v, vec![0, 1, 5, 7, 9, 10]);
}

#[test]
fn analytics_summary_of_a_range() {
    let entries = week_of_sessions();
    let data = get_analytics(&entries, &types(), day("2024-01-01"), day("2024-01-07"));
    assert_eq!(data.summary.total_minutes, 255);
    assert_eq!(data.summary.total_sessions, 4);
    assert_eq!(data.summary.avg_session_minutes, 63);
    assert_eq!(data.summary.longest_session, 120);
    assert_eq!(data.summary.total_pay, 11750);
}

#[test]
fn analytics_average_is_total_over_count() {
    let entries = week_of_sessions();
    for (lo, hi) in [("2024-01-01", "2024-01-07"), ("2023-12-01", "2024-12-31"), ("2024-01-03", "2024-01-03")] {
        let data = get_analytics(&entries, &types(), day(lo), day(hi));
        assert!(data.summary.total_sessions > 0);
        assert_eq!(
            data.summary.avg_session_minutes,
            data.summary.total_minutes / data.summary.total_sessions as u128
        );
        let by_hand: u128 = entries
            .iter()
            .filter(|e| e.day.map_or(false, |d| d.is_within(day(lo), day(hi))))
            .map(|e| e.session.minutes as u128)
            .sum();
        assert_eq!(data.summary.total_minutes, by_hand);
    }
}

#[test]
fn analytics_of_an_empty_range() {
    let entries = week_of_sessions();
    let data = get_analytics(&entries, &types(), day("2025-01-01"), day("2025-01-07"));
    assert_eq!(data.summary.total_minutes, 0);
    assert_eq!(data.summary.total_sessions, 0);
    assert_eq!(data.summary.avg_session_minutes, 0);
    assert_eq!(data.summary.longest_session, 0);
    assert_eq!(data.summary.total_pay, 0);
    assert!(data.daily_hours.is_empty());
    assert!(data.category_breakdown.is_empty());
    assert_eq!(data.weekday_breakdown.len(), 7);
    assert!(data.weekday_breakdown.iter().all(|w| w.minutes == 0 && w.sessions == 0));
    let none = get_analytics(&Vec::new(), &Vec::new(), day("2024-01-01"), day("2024-01-07"));
    assert_eq!(none.summary.total_sessions, 0);
    assert_eq!(none.weekday_breakdown.len(), 7);
}

#[test]
fn analytics_daily_rows_rise_by_date() {
    let entries = week_of_sessions();
    let data = get_analytics(&entries, &types(), day("2024-01-01"), day("2024-01-07"));
    let rows: Vec<(Date, u128, u128)> = data.daily_hours.iter().map(|r| (r.date, r.minutes, r.pay)).collect();
    assert_eq!(
        rows,
        vec![
            (day("2024-01-01"), 180, 11000),
            (day("2024-01-03"), 30, 0),
            (day("2024-01-07"), 45, 750),
        ]
    );
    let direct = daily_hours(&entries, day("2023-12-31").days, day("2024-01-01").days);
    assert_eq!(direct.len(), 2);
    assert_eq!(direct[0].date, day("2023-12-31"));
    assert_eq!(direct[0].pay, 100);
}

#[test]
fn analytics_category_rows() {
    let entries = week_of_sessions();
    let data = get_analytics(&entries, &types(), day("2024-01-01"), day("2024-01-07"));
    let rows: Vec<(String, String, u128, usize, u128)> = data
        .category_breakdown
        .iter()
        .map(|r| (r.category.clone(), r.color.clone(), r.minutes, r.sessions, r.pay))
        .collect();
    assert_eq!(
        rows,
        vec![
            ("Work".to_string(), "#22C55E".to_string(), 165, 2, 6750),
            ("Study".to_string(), "#3B82F6".to_string(), 60, 1, 5000),
            ("Unknown".to_string(), "#6366F1".to_string(), 30, 1, 0),
        ]
    );
    assert_eq!(
        category_names(&entries, day("2024-01-02").days, day("2024-01-07").days),
        vec!["Unknown".to_string(), "Work".to_string()]
    );
    assert!(category_breakdown(&entries, &types(), 5, 4).is_empty());
}

#[test]
fn analytics_weekday_rows_cover_the_week() {
    let entries = week_of_sessions();
    let data = get_analytics(&entries, &types(), day("2024-01-01"), day("2024-01-07"));
    let rows: Vec<(String, u128, usize)> =
        data.weekday_breakdown.iter().map(|r| (r.weekday.clone(), r.minutes, r.sessions)).collect();
    assert_eq!(
        rows,
        vec![
            ("Sun".to_string(), 45, 1),
            ("Mon".to_string(), 180, 2),
            ("Tue".to_string(), 0, 0),
            ("Wed".to_string(), 30, 1),
            ("Thu".to_string(), 0, 0),
            ("Fri".to_string(), 0, 0),
            ("Sat".to_string(), 0, 0),
        ]
    );
}

#[test]
fn analytics_weekdays_add_up_to_the_summary() {
    let entries = week_of_sessions();
    for (lo, hi) in [("2024-01-01", "2024-01-07"), ("2023-01-01", "2025-01-01"), ("2024-01-02", "2024-01-02")] {
        let data = get_analytics(&entries, &types(), day(lo), day(hi));
        assert_eq!(data.weekday_breakdown.len(), 7);
        let minutes: u128 = data.weekday_breakdown.iter().map(|r| r.minutes).sum();
        let sessions: usize = data.weekday_breakdown.iter().map(|r| r.sessions).sum();
        assert_eq!(minutes, data.summary.total_minutes);
        assert_eq!(sessions, data.summary.total_sessions);
    }
    let rows = weekday_breakdown(&entries, i32::MIN, i32::MAX);
    assert_eq!(rows[0].minutes, 245);
}

#[test]
fn pay_summary_over_four_windows() {
    let mut entries = week_of_sessions();
    entries.push(DatedSession::resolve(session(
        7, "2023-06-15", 60, 1, Some("Work"), Some(PayType::Fixed), None, Some(7),
    )));
    let r = get_pay_summary(&entries, day("2024-01-07"), day("2024-01-01"), day("2024-01-01"));
    assert_eq!(r.today, 750);
    assert_eq!(r.this_month, 11750);
    assert_eq!(r.this_year, 11750);
    assert_eq!(r.all_time, 11750 + 50000 + 100 + 7);
    let r = get_pay_summary(&entries, day("2023-12-31"), day("2023-12-01"), day("2023-01-01"));
    assert_eq!(r.today, 100);
    assert_eq!(r.this_month, 100);
    assert_eq!(r.this_year, 107);
}

#[test]
fn today_summary_by_session_type() {
    let entries = week_of_sessions();
    let r = get_today_summary(&entries, &types(), day("2024-01-01"));
    assert_eq!(r.date, day("2024-01-01"));
    assert_eq!(r.total_minutes, 180);
    assert_eq!(r.total_pay, 11000);
    let rows: Vec<(String, u128)> = r.session_minutes.iter().map(|t| (t.name.clone(), t.minutes)).collect();
    assert_eq!(rows, vec![("Work".to_string(), 120), ("Study".to_string(), 60)]);
    let r = get_today_summary(&entries, &types(), day("2024-01-02"));
    assert_eq!(r.total_minutes, 0);
    assert_eq!(r.session_minutes.len(), 2);
}
