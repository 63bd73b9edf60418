//! Habits: rewards that fall due after sessions, after hours of work, or
//! every day; and the activity that was tracked on its own.

use vstd::prelude::*;
use vstd::string::*;
use crate::date::Date;
use crate::models::NewSession;
use crate::models::PayType;
use crate::streaks::{Streaks, streaks_of, is_current_streak, is_longest_streak};
use crate::text::same_text;

verus! {

/// The streak that a habit aims at unless told otherwise.
pub const DEFAULT_TARGET_STREAK: u32 = 7;

/// A habit.
#[derive(Debug, Clone)]
pub struct Habit {
    pub id: i64,
    pub name: String,
    pub description: Option<String>,
    /// `after_session`, `after_hours` or `daily`.
    pub trigger_type: String,
    /// The threshold in hundredths: of sessions for `after_session`, of
    /// hours for `after_hours`.
    pub trigger_value: u32,
    pub reward_description: String,
    pub is_active: bool,
    pub current_streak: usize,
    pub best_streak: usize,
    pub total_completions: u32,
    pub target_streak: u32,
    /// The threshold in minutes, for `after_hours`.
    pub trigger_minutes: Option<u32>,
}

/// One completion of a habit.
#[derive(Debug, Clone)]
pub struct HabitLog {
    pub id: i64,
    pub habit_id: i64,
    pub completed_at: String,
    pub notes: Option<String>,
}

/// The threshold of a habit in minutes, rounded down: for `after_hours`
/// only.
pub open spec fn trigger_minutes_of(trigger_type: Seq<char>, trigger_value: u32) -> Option<u32> {
    if trigger_type == "after_hours"@ {
        Some(((trigger_value * 60) / 100) as u32)
    } else {
        None
    }
}

/// The threshold of a habit in minutes.
pub fn habit_trigger_minutes(trigger_type: &str, trigger_value: u32) -> (r: Option<u32>)
    ensures
        r == trigger_minutes_of(trigger_type@, trigger_value),
{
    if same_text(trigger_type, "after_hours") {
        Some((trigger_value as u64 * 60 / 100) as u32)
    } else {
        None
    }
}

/// Whether a trigger has fired on a day with so many sessions and minutes:
/// `after_session` once the sessions reach the threshold, `after_hours`
/// once the hours do, `daily` always, anything else never.
pub open spec fn trigger_met(
    trigger_type: Seq<char>,
    trigger_value: u32,
    session_count: int,
    total_minutes: int,
) -> bool {
    if trigger_type == "after_session"@ {
        session_count * 100 >= trigger_value
    } else if trigger_type == "after_hours"@ {
        total_minutes * 100 >= trigger_value * 60
    } else if trigger_type == "daily"@ {
        true
    } else {
        false
    }
}

/// Whether some log is of the habit with an id.
pub open spec fn logged(logs: Seq<HabitLog>, habit_id: i64) -> bool {
    exists|i: int| 0 <= i < logs.len() && (#[trigger] logs[i]).habit_id == habit_id
}

/// Whether a habit is pending: active, not completed today, its trigger
/// fired.
pub open spec fn is_pending(
    h: Habit,
    completed_today: Seq<HabitLog>,
    session_count: int,
    total_minutes: int,
) -> bool {
    h.is_active && !logged(completed_today, h.id) && trigger_met(
        h.trigger_type@,
        h.trigger_value,
        session_count,
        total_minutes,
    )
}

/// The pending habits, in the order of the habits.
pub open spec fn pending_of(
    habits: Seq<Habit>,
    completed_today: Seq<HabitLog>,
    session_count: int,
    total_minutes: int,
) -> Seq<Habit>
    decreases habits.len(),
{
    if habits.len() == 0 {
        Seq::empty()
    } else {
        let before = pending_of(habits.drop_last(), completed_today, session_count, total_minutes);
        if is_pending(habits.last(), completed_today, session_count, total_minutes) {
            before.push(habits.last())
        } else {
            before
        }
    }
}

fn is_logged(logs: &Vec<HabitLog>, habit_id: i64) -> (r: bool)
    ensures
        r == logged(logs@, habit_id),
{
    let mut i: usize = 0;
    while i < logs.len()
        invariant
            i <= logs@.len(),
            forall|j: int| 0 <= j < i ==> (#[trigger] logs@[j]).habit_id != habit_id,
        decreases logs@.len() - i,
    {
        if logs[i].habit_id == habit_id {
            return true;
        }
        i = i + 1;
    }
    false
}

fn has_fired(trigger_type: &str, trigger_value: u32, session_count: usize, total_minutes: u128) -> (r:
    bool)
    ensures
        r == trigger_met(trigger_type@, trigger_value, session_count as int, total_minutes as int),
{
    if same_text(trigger_type, "after_session") {
        session_count as u128 * 100 >= trigger_value as u128
    } else if same_text(trigger_type, "after_hours") {
        // more minutes than any threshold asks for need no multiplying
        total_minutes > 0xffff_ffff_ffff || total_minutes * 100 >= trigger_value as u128 * 60
    } else if same_text(trigger_type, "daily") {
        true
    } else {
        false
    }
}

fn copy_text(o: &Option<String>) -> (r: Option<String>)
    ensures
        r == *o,
{
    match o {
        Some(t) => Some(t.clone()),
        None => None,
    }
}

fn copy_habit(h: &Habit) -> (r: Habit)
    ensures
        r == *h,
{
    Habit {
        id: h.id,
        name: h.name.clone(),
        description: copy_text(&h.description),
        trigger_type: h.trigger_type.clone(),
        trigger_value: h.trigger_value,
        reward_description: h.reward_description.clone(),
        is_active: h.is_active,
        current_streak: h.current_streak,
        best_streak: h.best_streak,
        total_completions: h.total_completions,
        target_streak: h.target_streak,
        trigger_minutes: h.trigger_minutes,
    }
}

/// The habits that are due today: active, not yet completed today, and
/// triggered by today's sessions and minutes.
pub fn get_pending_habits(
    habits: &Vec<Habit>,
    completed_today: &Vec<HabitLog>,
    session_count: usize,
    total_minutes: u128,
) -> (pending: Vec<Habit>)
    ensures
        pending@ == pending_of(
            habits@,
            completed_today@,
            session_count as int,
            total_minutes as int,
        ),
{
    let mut pending: Vec<Habit> = Vec::new();
    let mut k: usize = 0;
    while k < habits.len()
        invariant
            k <= habits@.len(),
            pending@ == pending_of(
                habits@.take(k as int),
                completed_today@,
                session_count as int,
                total_minutes as int,
            ),
        decreases habits@.len() - k,
    {
        proof {
            let next = habits@.take(k as int + 1);
            assert(next.drop_last() =~= habits@.take(k as int));
            assert(next.last() == habits@[k as int]);
        }
        let h = &habits[k];
        if h.is_active && !is_logged(completed_today, h.id) && has_fired(
            h.trigger_type.as_str(),
            h.trigger_value,
            session_count,
            total_minutes,
        ) {
            pending.push(copy_habit(h));
        }
        k = k + 1;
    }
    proof {
        assert(habits@.take(habits@.len() as int) =~= habits@);
    }
    pending
}

/// A stored habit with what is worked out for showing it: its streaks as
/// of `today`, from the days on which it was completed, its threshold in
/// minutes, and the default target.
pub fn with_streaks(habit: &Habit, completions: &Vec<Date>, today: Date) -> (r: Habit)
    ensures
        r.id == habit.id,
        r.name == habit.name,
        r.description == habit.description,
        r.trigger_type == habit.trigger_type,
        r.trigger_value == habit.trigger_value,
        r.reward_description == habit.reward_description,
        r.is_active == habit.is_active,
        r.total_completions == habit.total_completions,
        r.target_streak == DEFAULT_TARGET_STREAK,
        r.trigger_minutes == trigger_minutes_of(habit.trigger_type@, habit.trigger_value),
        is_current_streak(completions@, today.days as int, r.current_streak as int),
        is_longest_streak(completions@, r.best_streak as int),
{
    let streaks: Streaks = streaks_of(completions, today);
    let mut r = copy_habit(habit);
    r.current_streak = streaks.current;
    r.best_streak = streaks.longest;
    r.target_streak = DEFAULT_TARGET_STREAK;
    r.trigger_minutes = habit_trigger_minutes(habit.trigger_type.as_str(), habit.trigger_value);
    r
}

/// An activity that was noticed and may become a session.
#[derive(Debug, Clone)]
pub struct ActivitySuggestion {
    pub id: i64,
    pub date: String,
    pub app_name: String,
    pub window_title: String,
    pub suggested_project: Option<String>,
    pub suggested_session_type_id: Option<i64>,
    pub duration_minutes: u16,
    pub start_time: String,
    pub end_time: String,
    /// `pending`, `accepted` or `dismissed`.
    pub status: String,
}

/// A rule by which activity is put to a project.
#[derive(Debug, Clone)]
pub struct TrackingRule {
    pub id: i64,
    pub app_pattern: String,
    pub title_pattern: Option<String>,
    pub project_name: String,
    pub session_type_id: i64,
    pub is_active: bool,
}

/// The session that an accepted suggestion becomes: on its date, of its
/// length, unpaid, described by the application and the window.
pub fn accept_suggestion(
    suggestion: &ActivitySuggestion,
    session_type_id: i64,
    project_name: &str,
) -> (r: NewSession)
    ensures
        r.session_type_id == session_type_id,
        r.date == suggestion.date,
        r.project_name@ == project_name@,
        r.minutes == suggestion.duration_minutes,
        r.description.is_some(),
        r.description.unwrap()@ == "Auto-tracked: "@ + suggestion.app_name@ + " - "@
            + suggestion.window_title@,
        r.pay_type == Some(PayType::Unpaid),
        r.hourly_rate.is_none(),
        r.fixed_amount.is_none(),
{
    let description = "Auto-tracked: ".to_string().concat(suggestion.app_name.as_str()).concat(
        " - ",
    ).concat(suggestion.window_title.as_str());
    NewSession {
        session_type_id,
        date: suggestion.date.clone(),
        project_name: project_name.to_string(),
        minutes: suggestion.duration_minutes,
        description: Some(description),
        pay_type: Some(PayType::Unpaid),
        hourly_rate: None,
        fixed_amount: None,
    }
}

} // verus!
