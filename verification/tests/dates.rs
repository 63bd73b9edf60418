use chronodesk::date::Date;

fn day(text: &str) -> Date {
    Date::parse(text).unwrap()
}

#[test]
fn parse_reads_iso_dates() {
    assert_eq!(day("2024-01-07").days, 738_892);
    assert_eq!(day("1970-01-01").days, 719_163);
    assert_eq!(day("0001-01-01").days, 1);
}

#[test]
fn parse_refuses_what_is_no_date() {
    assert_eq!(Date::parse(""), None);
    assert_eq!(Date::parse("garbage"), None);
    assert_eq!(Date::parse("2024-02-30"), None);
    assert_eq!(Date::parse("2024-13-01"), None);
    assert_eq!(Date::parse("2024/01/07"), None);
}

#[test]
fn weekday_counts_from_sunday() {
    assert_eq!(day("2024-01-07").weekday(), 0);
    assert_eq!(day("2024-01-08").weekday(), 1);
    assert_eq!(day("2024-01-09").weekday(), 2);
    assert_eq!(day("2024-01-10").weekday(), 3);
    assert_eq!(day("2024-01-11").weekday(), 4);
    assert_eq!(day("2024-01-12").weekday(), 5);
    assert_eq!(day("2024-01-13").weekday(), 6);
    assert_eq!(day("1970-01-01").weekday(), 4);
    assert_eq!(day("0001-01-01").weekday(), 1);
}

#[test]
fn weekday_of_days_before_year_one() {
    // Day 0 is 31 December of the year before year 1, a Sunday.
    assert_eq!(Date { days: 0 }.weekday(), 0);
    assert_eq!(Date { days: -1 }.weekday(), 6);
    assert_eq!(Date { days: -7 }.weekday(), 0);
    assert_eq!(Date { days: i32::MIN }.weekday(), ((i32::MIN as i64).rem_euclid(7)) as u8);
}

#[test]
fn week_runs_from_monday_to_sunday() {
    let monday = day("2024-01-08");
    let sunday = day("2024-01-14");
    let next_monday = day("2024-01-15");
    assert_eq!(monday.week(), sunday.week());
    assert_eq!(next_monday.week(), monday.week() + 1);
    assert_eq!(day("2024-01-07").week(), monday.week() - 1);
    assert_eq!(Date { days: 1 }.week(), 0);
    assert_eq!(Date { days: 7 }.week(), 0);
    assert_eq!(Date { days: 0 }.week(), -1);
}

#[test]
fn to_iso_string_writes_what_parse_reads() {
    assert_eq!(Date { days: 738_892 }.to_iso_string(), Some("2024-01-07".to_string()));
    assert_eq!(day("1999-12-31").to_iso_string(), Some("1999-12-31".to_string()));
    assert_eq!(Date { days: i32::MAX }.to_iso_string(), None);
}

#[test]
fn plus_days_moves_along_the_day_line() {
    let d = day("2024-02-28");
    assert_eq!(d.plus_days(1), Some(day("2024-02-29")));
    assert_eq!(d.plus_days(2), Some(day("2024-03-01")));
    assert_eq!(d.plus_days(-28), Some(day("2024-01-31")));
    assert_eq!(d.plus_days(0), Some(d));
    assert_eq!(Date { days: i32::MAX }.plus_days(1), None);
    assert_eq!(Date { days: i32::MIN }.plus_days(-1), None);
    assert_eq!(d.plus_days(i64::MAX), None);
    assert_eq!(d.plus_days(i64::MIN), None);
}

#[test]
fn back_stops_at_the_first_day() {
    let d = day("2024-01-15");
    assert_eq!(d.back(14), day("2024-01-01").days);
    assert_eq!(d.back(0), d.days);
    assert_eq!(Date { days: i32::MIN + 3 }.back(10), i32::MIN);
}

#[test]
fn is_within_includes_both_ends() {
    let lo = day("2024-01-01");
    let hi = day("2024-01-31");
    assert!(lo.is_within(lo, hi));
    assert!(hi.is_within(lo, hi));
    assert!(day("2024-01-15").is_within(lo, hi));
    assert!(!day("2023-12-31").is_within(lo, hi));
    assert!(!day("2024-02-01").is_within(lo, hi));
}
