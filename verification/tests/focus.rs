use chronodesk::date::Date;
use chronodesk::focus::{get_focus_metrics, score_focus, FocusMetrics};
use chronodesk::models::WorkSession;
use chronodesk::streaks::Streaks;
use chronodesk::timeline::resolve_all;

fn day(text: &str) -> Date {
    Date::parse(text).unwrap()
}

fn session(date: &str, minutes: u16) -> WorkSession {
    WorkSession {
        id: 1,
        session_type_id: 1,
        session_type_name: None,
        date: date.to_string(),
        project_name: "Site".to_string(),
        minutes,
        description: None,
        pay_type: None,
        hourly_rate: None,
        fixed_amount: None,
    }
}

#[test]
fn focus_of_a_short_week() {
    let entries = resolve_all(vec![
        session("2024-03-15", 240),
        session("2024-03-15", 30),
        session("2024-03-14", 120),
        session("2024-03-13", 45),
        session("2024-03-01", 10),
        session("nonsense", 10),
    ]);
    let m = get_focus_metrics(&entries, day("2024-03-15"), 7);
    assert_eq!(
        m,
        FocusMetrics {
            // 1800 for 108 minutes, 1500 for half the sessions short, 1285 for 3 days
            focus_score: 4585,
            fragmentation_score: 5000,
            avg_session_minutes: 108,
            session_count: 4,
            total_minutes: 435,
            longest_streak_days: 3,
            current_streak_days: 3,
        }
    );
}

#[test]
fn focus_without_sessions() {
    let m = get_focus_metrics(&Vec::new(), day("2024-03-15"), 7);
    assert_eq!(m.session_count, 0);
    assert_eq!(m.total_minutes, 0);
    assert_eq!(m.avg_session_minutes, 0);
    assert_eq!(m.fragmentation_score, 10_000);
    assert_eq!(m.focus_score, 3000);
    assert_eq!(m.current_streak_days, 0);
    assert_eq!(m.longest_streak_days, 0);
}

#[test]
fn focus_streaks_reach_beyond_the_window() {
    let entries = resolve_all(vec![
        session("2024-03-15", 60),
        session("2024-03-14", 60),
        session("2024-03-13", 60),
        session("2024-03-12", 60),
    ]);
    let m = get_focus_metrics(&entries, day("2024-03-15"), 1);
    assert_eq!(m.session_count, 2);
    assert_eq!(m.current_streak_days, 4);
    assert_eq!(m.longest_streak_days, 4);
    // 1000 for an hour, 3000 for no short session, 1714 for 4 days
    assert_eq!(m.focus_score, 5714);
}

#[test]
fn focus_parts_are_capped() {
    let full = score_focus(4800, 10, 0, Streaks { current: 7, longest: 9 });
    assert_eq!(full.avg_session_minutes, 480);
    assert_eq!(full.fragmentation_score, 10_000);
    assert_eq!(full.focus_score, 10_000);
    assert_eq!(full.longest_streak_days, 9);
    let long = score_focus(240, 1, 0, Streaks { current: 0, longest: 0 });
    assert_eq!(long.focus_score, 4000 + 3000);
    let longer = score_focus(241, 1, 0, Streaks { current: 100, longest: 100 });
    assert_eq!(longer.focus_score, 10_000);
    let all_short = score_focus(50, 5, 5, Streaks { current: 1, longest: 1 });
    assert_eq!(all_short.fragmentation_score, 0);
    // 166 for 10 minutes, nothing for the fragmentation, 428 for a day
    assert_eq!(all_short.focus_score, 166 + 428);
    let third = score_focus(300, 3, 1, Streaks { current: 0, longest: 0 });
    assert_eq!(third.fragmentation_score, 6667);
    assert_eq!(third.focus_score, 1666 + 2000);
}
