//! The focus score of a trailing window of days: how long the sessions
//! are, how few of them are short, and how long the current streak is.

use vstd::prelude::*;
use crate::date::{Date, day_back};
use crate::math::least;
use crate::streaks::{Streaks, calculate_streaks, session_dates, is_current_streak, is_longest_streak};
use crate::timeline::{DatedSession, Measure, Pick, total, minutes_of, count_of};

verus! {

/// The focus of a window of days. Scores are in hundredths of a point.
#[derive(Debug, Clone, Copy, PartialEq, Eq, Structural)]
pub struct FocusMetrics {
    /// From 0 to 10000.
    pub focus_score: u32,
    /// From 0 to 10000; lower where more sessions are short.
    pub fragmentation_score: u32,
    /// The mean duration of a session in minutes, rounded down.
    pub avg_session_minutes: u128,
    pub session_count: usize,
    pub total_minutes: u128,
    pub longest_streak_days: usize,
    pub current_streak_days: usize,
}

/// The mean duration in minutes, rounded down; 0 without sessions.
pub open spec fn mean_minutes(minutes: int, sessions: int) -> int {
    if sessions > 0 {
        minutes / sessions
    } else {
        0
    }
}

/// 10000 less the share of short sessions, in hundredths of a percent;
/// 10000 without sessions.
pub open spec fn fragmentation_of(short: int, sessions: int) -> int {
    if sessions > 0 {
        10000 - (short * 10000) / sessions
    } else {
        10000
    }
}

/// Up to 40 points for the mean duration: 10 points an hour.
pub open spec fn length_points(avg_minutes: int) -> int {
    least(4000, (avg_minutes * 50) / 3)
}

/// Up to 30 points for the current streak: 30 points a week.
pub open spec fn streak_points(streak_days: int) -> int {
    least(3000, (streak_days * 3000) / 7)
}

/// The focus score: the points for the mean duration, three tenths of the
/// fragmentation score and the points for the streak, at most 10000.
pub open spec fn focus_of(avg_minutes: int, fragmentation: int, streak_days: int) -> int {
    least(
        10000,
        length_points(avg_minutes) + (fragmentation * 3) / 10 + streak_points(streak_days),
    )
}

/// Among the picked sessions the short ones are no more than all.
pub proof fn lemma_short_within_all(s: Seq<DatedSession>, p: Pick)
    ensures
        0 <= total(s, Measure::ShortSessions, p) <= total(s, Measure::Sessions, p),
    decreases s.len(),
{
    if s.len() > 0 {
        lemma_short_within_all(s.drop_last(), p);
    }
}

/// Puts the figures of a window and the current streak into a score.
pub fn score_focus(
    total_minutes: u128,
    session_count: usize,
    short_sessions: usize,
    streaks: Streaks,
) -> (m: FocusMetrics)
    requires
        short_sessions <= session_count,
    ensures
        m.total_minutes == total_minutes,
        m.session_count == session_count,
        m.current_streak_days == streaks.current,
        m.longest_streak_days == streaks.longest,
        m.avg_session_minutes == mean_minutes(total_minutes as int, session_count as int),
        m.fragmentation_score == fragmentation_of(short_sessions as int, session_count as int),
        m.focus_score == focus_of(
            m.avg_session_minutes as int,
            m.fragmentation_score as int,
            streaks.current as int,
        ),
{
    let avg: u128 = if session_count > 0 {
        total_minutes / session_count as u128
    } else {
        0
    };
    let fragmentation: u128 = if session_count > 0 {
        let short: u128 = short_sessions as u128;
        let all: u128 = session_count as u128;
        assert((short * 10000) / (all as int) <= 10000) by (nonlinear_arith)
            requires
                0 <= short <= all,
                all > 0,
        ;
        10000 - (short * 10000) / all
    } else {
        10000
    };
    // four hours and more give the full 4000, seven days and more the
    // full 3000
    let by_length: u128 = if avg >= 240 {
        4000
    } else {
        avg * 50 / 3
    };
    let by_streak: u128 = if streaks.current >= 7 {
        3000
    } else {
        streaks.current as u128 * 3000 / 7
    };
    let sum: u128 = by_length + fragmentation * 3 / 10 + by_streak;
    let focus: u128 = if sum > 10000 {
        10000
    } else {
        sum
    };
    FocusMetrics {
        focus_score: focus as u32,
        fragmentation_score: fragmentation as u32,
        avg_session_minutes: avg,
        session_count,
        total_minutes,
        longest_streak_days: streaks.longest,
        current_streak_days: streaks.current,
    }
}

/// The focus of the `days` days before `today` and `today` itself. The
/// streaks are those of all sessions, whatever the window.
pub fn get_focus_metrics(entries: &Vec<DatedSession>, today: Date, days: u32) -> (m: FocusMetrics)
    ensures
        m.total_minutes == total(
            entries@,
            Measure::Minutes,
            Pick::Window(day_back(today, days), today.days),
        ),
        m.session_count == total(
            entries@,
            Measure::Sessions,
            Pick::Window(day_back(today, days), today.days),
        ),
        m.avg_session_minutes == mean_minutes(m.total_minutes as int, m.session_count as int),
        m.fragmentation_score == fragmentation_of(
            total(
                entries@,
                Measure::ShortSessions,
                Pick::Window(day_back(today, days), today.days),
            ),
            m.session_count as int,
        ),
        is_current_streak(session_dates(entries@), today.days as int, m.current_streak_days as int),
        is_longest_streak(session_dates(entries@), m.longest_streak_days as int),
        m.focus_score == focus_of(
            m.avg_session_minutes as int,
            m.fragmentation_score as int,
            m.current_streak_days as int,
        ),
{
    let window = Pick::Window(today.back(days), today.days);
    let total_minutes = minutes_of(entries, &window);
    let session_count = count_of(entries, Measure::Sessions, &window);
    let short_sessions = count_of(entries, Measure::ShortSessions, &window);
    proof {
        lemma_short_within_all(entries@, window);
    }
    let streaks = calculate_streaks(entries, today);
    score_focus(total_minutes, session_count, short_sessions, streaks)
}

} // verus!
