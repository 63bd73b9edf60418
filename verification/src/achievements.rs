//! Achievements: fifteen fixed conditions over the facts of a history,
//! each unlocked at most once.

use vstd::prelude::*;
use vstd::string::*;
use crate::text::same_text;

verus! {

/// The group an achievement belongs to.
#[derive(Debug, Clone, Copy, PartialEq, Eq, Structural)]
pub enum AchievementCategory {
    Presence,
    Awareness,
    Balance,
    Commitment,
    Financial,
}

/// The fifteen achievements.
#[derive(Debug, Clone, Copy, PartialEq, Eq, Structural)]
pub enum AchievementId {
    FirstStep,
    BackAgain,
    GettingComfortable,
    PartOfRoutine,
    CuriousMind,
    PatternNoticed,
    ZoomedOut,
    ConnectingDots,
    PacedYourself,
    SustainableWeek,
    HumanWeekend,
    LongRun,
    OneFullMonth,
    HundredHours,
    FirstDollar,
}

/// What there is to say of an achievement.
#[derive(Debug, Clone)]
pub struct AchievementDef {
    pub id: AchievementId,
    /// The key under which the achievement is stored.
    pub key: String,
    pub name: String,
    pub description: String,
    pub category: AchievementCategory,
    pub icon: String,
}

/// An achievement as it is shown: what there is to say of it, and whether
/// and when it was unlocked.
#[derive(Debug, Clone)]
pub struct Achievement {
    pub id: String,
    pub name: String,
    pub description: String,
    pub category: AchievementCategory,
    pub icon: String,
    pub unlocked: bool,
    pub unlocked_at: Option<String>,
}

/// The number of achievements.
pub const ACHIEVEMENT_COUNT: usize = 15;

impl AchievementId {
    /// The place of the achievement in the fixed order, from 0.
    pub open spec fn index(self) -> int {
        match self {
            AchievementId::FirstStep => 0,
            AchievementId::BackAgain => 1,
            AchievementId::GettingComfortable => 2,
            AchievementId::PartOfRoutine => 3,
            AchievementId::CuriousMind => 4,
            AchievementId::PatternNoticed => 5,
            AchievementId::ZoomedOut => 6,
            AchievementId::ConnectingDots => 7,
            AchievementId::PacedYourself => 8,
            AchievementId::SustainableWeek => 9,
            AchievementId::HumanWeekend => 10,
            AchievementId::LongRun => 11,
            AchievementId::OneFullMonth => 12,
            AchievementId::HundredHours => 13,
            AchievementId::FirstDollar => 14,
        }
    }

    /// The achievement at a place of the fixed order.
    pub open spec fn at(i: int) -> AchievementId {
        if i == 0 {
            AchievementId::FirstStep
        } else if i == 1 {
            AchievementId::BackAgain
        } else if i == 2 {
            AchievementId::GettingComfortable
        } else if i == 3 {
            AchievementId::PartOfRoutine
        } else if i == 4 {
            AchievementId::CuriousMind
        } else if i == 5 {
            AchievementId::PatternNoticed
        } else if i == 6 {
            AchievementId::ZoomedOut
        } else if i == 7 {
            AchievementId::ConnectingDots
        } else if i == 8 {
            AchievementId::PacedYourself
        } else if i == 9 {
            AchievementId::SustainableWeek
        } else if i == 10 {
            AchievementId::HumanWeekend
        } else if i == 11 {
            AchievementId::LongRun
        } else if i == 12 {
            AchievementId::OneFullMonth
        } else if i == 13 {
            AchievementId::HundredHours
        } else {
            AchievementId::FirstDollar
        }
    }

    /// The place of the achievement in the fixed order, from 0.
    pub fn position(&self) -> (i: usize)
        ensures
            i == self.index(),
            i < ACHIEVEMENT_COUNT,
            AchievementId::at(i as int) == *self,
    {
        match self {
            AchievementId::FirstStep => 0,
            AchievementId::BackAgain => 1,
            AchievementId::GettingComfortable => 2,
            AchievementId::PartOfRoutine => 3,
            AchievementId::CuriousMind => 4,
            AchievementId::PatternNoticed => 5,
            AchievementId::ZoomedOut => 6,
            AchievementId::ConnectingDots => 7,
            AchievementId::PacedYourself => 8,
            AchievementId::SustainableWeek => 9,
            AchievementId::HumanWeekend => 10,
            AchievementId::LongRun => 11,
            AchievementId::OneFullMonth => 12,
            AchievementId::HundredHours => 13,
            AchievementId::FirstDollar => 14,
        }
    }

    /// The achievement at a place of the fixed order.
    pub fn nth(i: usize) -> (a: AchievementId)
        requires
            i < ACHIEVEMENT_COUNT,
        ensures
            a == AchievementId::at(i as int),
            a.index() == i,
    {
        if i == 0 {
            AchievementId::FirstStep
        } else if i == 1 {
            AchievementId::BackAgain
        } else if i == 2 {
            AchievementId::GettingComfortable
        } else if i == 3 {
            AchievementId::PartOfRoutine
        } else if i == 4 {
            AchievementId::CuriousMind
        } else if i == 5 {
            AchievementId::PatternNoticed
        } else if i == 6 {
            AchievementId::ZoomedOut
        } else if i == 7 {
            AchievementId::ConnectingDots
        } else if i == 8 {
            AchievementId::PacedYourself
        } else if i == 9 {
            AchievementId::SustainableWeek
        } else if i == 10 {
            AchievementId::HumanWeekend
        } else if i == 11 {
            AchievementId::LongRun
        } else if i == 12 {
            AchievementId::OneFullMonth
        } else if i == 13 {
            AchievementId::HundredHours
        } else {
            AchievementId::FirstDollar
        }
    }

    /// The key under which the achievement is stored.
    pub open spec fn key(self) -> Seq<char> {
        match self {
            AchievementId::FirstStep => "first_step"@,
            AchievementId::BackAgain => "back_again"@,
            AchievementId::GettingComfortable => "getting_comfortable"@,
            AchievementId::PartOfRoutine => "part_of_routine"@,
            AchievementId::CuriousMind => "curious_mind"@,
            AchievementId::PatternNoticed => "pattern_noticed"@,
            AchievementId::ZoomedOut => "zoomed_out"@,
            AchievementId::ConnectingDots => "connecting_dots"@,
            AchievementId::PacedYourself => "paced_yourself"@,
            AchievementId::SustainableWeek => "sustainable_week"@,
            AchievementId::HumanWeekend => "human_weekend"@,
            AchievementId::LongRun => "long_run"@,
            AchievementId::OneFullMonth => "one_full_month"@,
            AchievementId::HundredHours => "hundred_hours"@,
            AchievementId::FirstDollar => "first_dollar"@,
        }
    }

    /// The name of the achievement.
    pub open spec fn title(self) -> Seq<char> {
        match self {
            AchievementId::FirstStep => "First Step"@,
            AchievementId::BackAgain => "Back Again"@,
            AchievementId::GettingComfortable => "Getting Comfortable"@,
            AchievementId::PartOfRoutine => "Part of the Routine"@,
            AchievementId::CuriousMind => "Curious Mind"@,
            AchievementId::PatternNoticed => "Pattern Noticed"@,
            AchievementId::ZoomedOut => "Zoomed Out"@,
            AchievementId::ConnectingDots => "Connecting the Dots"@,
            AchievementId::PacedYourself => "Paced Yourself"@,
            AchievementId::SustainableWeek => "Sustainable Week"@,
            AchievementId::HumanWeekend => "Human Weekend"@,
            AchievementId::LongRun => "In It for the Long Run"@,
            AchievementId::OneFullMonth => "One Full Month"@,
            AchievementId::HundredHours => "Hundred Hours"@,
            AchievementId::FirstDollar => "First Dollar"@,
        }
    }

    /// What the achievement is given for.
    pub open spec fn blurb(self) -> Seq<char> {
        match self {
            AchievementId::FirstStep => "Logged your first session"@,
            AchievementId::BackAgain => "Used ChronoDesk on 3 different days"@,
            AchievementId::GettingComfortable => "Logged 10 total sessions"@,
            AchievementId::PartOfRoutine => "Used ChronoDesk across 7 different days"@,
            AchievementId::CuriousMind => "Opened Analytics for the first time"@,
            AchievementId::PatternNoticed => "Viewed Analytics on 5 different days"@,
            AchievementId::ZoomedOut => "Explored at least 3 different time ranges in Analytics"@,
            AchievementId::ConnectingDots => "Used Analytics and Advisor in the same day"@,
            AchievementId::PacedYourself => "No session longer than 6 hours in a full week"@,
            AchievementId::SustainableWeek => "Averaged under 8 hours per day for a full week"@,
            AchievementId::HumanWeekend => "Logged less than 3 hours total on a weekend"@,
            AchievementId::LongRun => "Logged sessions in 3 different calendar weeks"@,
            AchievementId::OneFullMonth => "Tracked time across 4 different weeks"@,
            AchievementId::HundredHours => "Tracked 100 total hours"@,
            AchievementId::FirstDollar => "Tracked your first paid session"@,
        }
    }

    /// The icon of the achievement.
    pub open spec fn emblem(self) -> Seq<char> {
        match self {
            AchievementId::FirstStep => "\u{1F331}"@,
            AchievementId::BackAgain => "\u{1F44B}"@,
            AchievementId::GettingComfortable => "\u{1FAB4}"@,
            AchievementId::PartOfRoutine => "\u{1F33F}"@,
            AchievementId::CuriousMind => "\u{1F9E0}"@,
            AchievementId::PatternNoticed => "\u{1F50D}"@,
            AchievementId::ZoomedOut => "\u{1F52D}"@,
            AchievementId::ConnectingDots => "\u{1F9E9}"@,
            AchievementId::PacedYourself => "\u{2696}\u{FE0F}"@,
            AchievementId::SustainableWeek => "\u{1F30A}"@,
            AchievementId::HumanWeekend => "\u{2600}\u{FE0F}"@,
            AchievementId::LongRun => "\u{1F3C3}"@,
            AchievementId::OneFullMonth => "\u{1F4C5}"@,
            AchievementId::HundredHours => "\u{1F4AF}"@,
            AchievementId::FirstDollar => "\u{1F4B5}"@,
        }
    }

    /// The group of the achievement.
    pub open spec fn group(self) -> AchievementCategory {
        match self {
            AchievementId::FirstStep => AchievementCategory::Presence,
            AchievementId::BackAgain => AchievementCategory::Presence,
            AchievementId::GettingComfortable => AchievementCategory::Presence,
            AchievementId::PartOfRoutine => AchievementCategory::Presence,
            AchievementId::CuriousMind => AchievementCategory::Awareness,
            AchievementId::PatternNoticed => AchievementCategory::Awareness,
            AchievementId::ZoomedOut => AchievementCategory::Awareness,
            AchievementId::ConnectingDots => AchievementCategory::Awareness,
            AchievementId::PacedYourself => AchievementCategory::Balance,
            AchievementId::SustainableWeek => AchievementCategory::Balance,
            AchievementId::HumanWeekend => AchievementCategory::Balance,
            AchievementId::LongRun => AchievementCategory::Commitment,
            AchievementId::OneFullMonth => AchievementCategory::Commitment,
            AchievementId::HundredHours => AchievementCategory::Commitment,
            AchievementId::FirstDollar => AchievementCategory::Financial,
        }
    }

    /// The group of the achievement.
    pub fn category(&self) -> (c: AchievementCategory)
        ensures
            c == self.group(),
    {
        match self {
            AchievementId::FirstStep => AchievementCategory::Presence,
            AchievementId::BackAgain => AchievementCategory::Presence,
            AchievementId::GettingComfortable => AchievementCategory::Presence,
            AchievementId::PartOfRoutine => AchievementCategory::Presence,
            AchievementId::CuriousMind => AchievementCategory::Awareness,
            AchievementId::PatternNoticed => AchievementCategory::Awareness,
            AchievementId::ZoomedOut => AchievementCategory::Awareness,
            AchievementId::ConnectingDots => AchievementCategory::Awareness,
            AchievementId::PacedYourself => AchievementCategory::Balance,
            AchievementId::SustainableWeek => AchievementCategory::Balance,
            AchievementId::HumanWeekend => AchievementCategory::Balance,
            AchievementId::LongRun => AchievementCategory::Commitment,
            AchievementId::OneFullMonth => AchievementCategory::Commitment,
            AchievementId::HundredHours => AchievementCategory::Commitment,
            AchievementId::FirstDollar => AchievementCategory::Financial,
        }
    }

    /// The key under which the achievement is stored.
    pub fn as_key(&self) -> (r: String)
        ensures
            r@ == self.key(),
    {
        match self {
            AchievementId::FirstStep => "first_step".to_string(),
            AchievementId::BackAgain => "back_again".to_string(),
            AchievementId::GettingComfortable => "getting_comfortable".to_string(),
            AchievementId::PartOfRoutine => "part_of_routine".to_string(),
            AchievementId::CuriousMind => "curious_mind".to_string(),
            AchievementId::PatternNoticed => "pattern_noticed".to_string(),
            AchievementId::ZoomedOut => "zoomed_out".to_string(),
            AchievementId::ConnectingDots => "connecting_dots".to_string(),
            AchievementId::PacedYourself => "paced_yourself".to_string(),
            AchievementId::SustainableWeek => "sustainable_week".to_string(),
            AchievementId::HumanWeekend => "human_weekend".to_string(),
            AchievementId::LongRun => "long_run".to_string(),
            AchievementId::OneFullMonth => "one_full_month".to_string(),
            AchievementId::HundredHours => "hundred_hours".to_string(),
            AchievementId::FirstDollar => "first_dollar".to_string(),
        }
    }

    /// The name of the achievement.
    pub fn name(&self) -> (r: String)
        ensures
            r@ == self.title(),
    {
        match self {
            AchievementId::FirstStep => "First Step".to_string(),
            AchievementId::BackAgain => "Back Again".to_string(),
            AchievementId::GettingComfortable => "Getting Comfortable".to_string(),
            AchievementId::PartOfRoutine => "Part of the Routine".to_string(),
            AchievementId::CuriousMind => "Curious Mind".to_string(),
            AchievementId::PatternNoticed => "Pattern Noticed".to_string(),
            AchievementId::ZoomedOut => "Zoomed Out".to_string(),
            AchievementId::ConnectingDots => "Connecting the Dots".to_string(),
            AchievementId::PacedYourself => "Paced Yourself".to_string(),
            AchievementId::SustainableWeek => "Sustainable Week".to_string(),
            AchievementId::HumanWeekend => "Human Weekend".to_string(),
            AchievementId::LongRun => "In It for the Long Run".to_string(),
            AchievementId::OneFullMonth => "One Full Month".to_string(),
            AchievementId::HundredHours => "Hundred Hours".to_string(),
            AchievementId::FirstDollar => "First Dollar".to_string(),
        }
    }

    /// What the achievement is given for.
    pub fn description(&self) -> (r: String)
        ensures
            r@ == self.blurb(),
    {
        match self {
            AchievementId::FirstStep => "Logged your first session".to_string(),
            AchievementId::BackAgain => "Used ChronoDesk on 3 different days".to_string(),
            AchievementId::GettingComfortable => "Logged 10 total sessions".to_string(),
            AchievementId::PartOfRoutine => "Used ChronoDesk across 7 different days".to_string(),
            AchievementId::CuriousMind => "Opened Analytics for the first time".to_string(),
            AchievementId::PatternNoticed => "Viewed Analytics on 5 different days".to_string(),
            AchievementId::ZoomedOut => "Explored at least 3 different time ranges in Analytics".to_string(),
            AchievementId::ConnectingDots => "Used Analytics and Advisor in the same day".to_string(),
            AchievementId::PacedYourself => "No session longer than 6 hours in a full week".to_string(),
            AchievementId::SustainableWeek => "Averaged under 8 hours per day for a full week".to_string(),
            AchievementId::HumanWeekend => "Logged less than 3 hours total on a weekend".to_string(),
            AchievementId::LongRun => "Logged sessions in 3 different calendar weeks".to_string(),
            AchievementId::OneFullMonth => "Tracked time across 4 different weeks".to_string(),
            AchievementId::HundredHours => "Tracked 100 total hours".to_string(),
            AchievementId::FirstDollar => "Tracked your first paid session".to_string(),
        }
    }

    /// The icon of the achievement.
    pub fn icon(&self) -> (r: String)
        ensures
            r@ == self.emblem(),
    {
        match self {
            AchievementId::FirstStep => "\u{1F331}".to_string(),
            AchievementId::BackAgain => "\u{1F44B}".to_string(),
            AchievementId::GettingComfortable => "\u{1FAB4}".to_string(),
            AchievementId::PartOfRoutine => "\u{1F33F}".to_string(),
            AchievementId::CuriousMind => "\u{1F9E0}".to_string(),
            AchievementId::PatternNoticed => "\u{1F50D}".to_string(),
            AchievementId::ZoomedOut => "\u{1F52D}".to_string(),
            AchievementId::ConnectingDots => "\u{1F9E9}".to_string(),
            AchievementId::PacedYourself => "\u{2696}\u{FE0F}".to_string(),
            AchievementId::SustainableWeek => "\u{1F30A}".to_string(),
            AchievementId::HumanWeekend => "\u{2600}\u{FE0F}".to_string(),
            AchievementId::LongRun => "\u{1F3C3}".to_string(),
            AchievementId::OneFullMonth => "\u{1F4C5}".to_string(),
            AchievementId::HundredHours => "\u{1F4AF}".to_string(),
            AchievementId::FirstDollar => "\u{1F4B5}".to_string(),
        }
    }

    /// The achievement that a key names, if it names one.
    pub open spec fn of_key(key: Seq<char>) -> Option<AchievementId> {
        if key == "first_step"@ {
            Some(AchievementId::FirstStep)
        } else if key == "back_again"@ {
            Some(AchievementId::BackAgain)
        } else if key == "getting_comfortable"@ {
            Some(AchievementId::GettingComfortable)
        } else if key == "part_of_routine"@ {
            Some(AchievementId::PartOfRoutine)
        } else if key == "curious_mind"@ {
            Some(AchievementId::CuriousMind)
        } else if key == "pattern_noticed"@ {
            Some(AchievementId::PatternNoticed)
        } else if key == "zoomed_out"@ {
            Some(AchievementId::ZoomedOut)
        } else if key == "connecting_dots"@ {
            Some(AchievementId::ConnectingDots)
        } else if key == "paced_yourself"@ {
            Some(AchievementId::PacedYourself)
        } else if key == "sustainable_week"@ {
            Some(AchievementId::SustainableWeek)
        } else if key == "human_weekend"@ {
            Some(AchievementId::HumanWeekend)
        } else if key == "long_run"@ {
            Some(AchievementId::LongRun)
        } else if key == "one_full_month"@ {
            Some(AchievementId::OneFullMonth)
        } else if key == "hundred_hours"@ {
            Some(AchievementId::HundredHours)
        } else if key == "first_dollar"@ {
            Some(AchievementId::FirstDollar)
        } else {
            None
        }
    }

    /// Reads a stored key.
    pub fn from_key(key: &str) -> (r: Option<AchievementId>)
        ensures
            r == AchievementId::of_key(key@),
    {
        if same_text(key, "first_step") {
            Some(AchievementId::FirstStep)
        } else if same_text(key, "back_again") {
            Some(AchievementId::BackAgain)
        } else if same_text(key, "getting_comfortable") {
            Some(AchievementId::GettingComfortable)
        } else if same_text(key, "part_of_routine") {
            Some(AchievementId::PartOfRoutine)
        } else if same_text(key, "curious_mind") {
            Some(AchievementId::CuriousMind)
        } else if same_text(key, "pattern_noticed") {
            Some(AchievementId::PatternNoticed)
        } else if same_text(key, "zoomed_out") {
            Some(AchievementId::ZoomedOut)
        } else if same_text(key, "connecting_dots") {
            Some(AchievementId::ConnectingDots)
        } else if same_text(key, "paced_yourself") {
            Some(AchievementId::PacedYourself)
        } else if same_text(key, "sustainable_week") {
            Some(AchievementId::SustainableWeek)
        } else if same_text(key, "human_weekend") {
            Some(AchievementId::HumanWeekend)
        } else if same_text(key, "long_run") {
            Some(AchievementId::LongRun)
        } else if same_text(key, "one_full_month") {
            Some(AchievementId::OneFullMonth)
        } else if same_text(key, "hundred_hours") {
            Some(AchievementId::HundredHours)
        } else if same_text(key, "first_dollar") {
            Some(AchievementId::FirstDollar)
        } else {
            None
        }
    }

    /// What there is to say of the achievement.
    pub fn definition(&self) -> (d: AchievementDef)
        ensures
            d.id == *self,
            d.key@ == self.key(),
            d.name@ == self.title(),
            d.description@ == self.blurb(),
            d.category == self.group(),
            d.icon@ == self.emblem(),
    {
        AchievementDef {
            id: *self,
            key: self.as_key(),
            name: self.name(),
            description: self.description(),
            category: self.category(),
            icon: self.icon(),
        }
    }
}

/// The achievements in their fixed order.
pub fn all_achievements() -> (all: Vec<AchievementId>)
    ensures
        all@.len() == ACHIEVEMENT_COUNT,
        forall|i: int| 0 <= i < ACHIEVEMENT_COUNT ==> all@[i] == AchievementId::at(i),
{
    let mut all: Vec<AchievementId> = Vec::new();
    let mut i: usize = 0;
    while i < ACHIEVEMENT_COUNT
        invariant
            i <= ACHIEVEMENT_COUNT,
            all@.len() == i,
            forall|j: int| 0 <= j < i ==> all@[j] == AchievementId::at(j),
        decreases ACHIEVEMENT_COUNT - i,
    {
        all.push(AchievementId::nth(i));
        i = i + 1;
    }
    all
}

/// The facts of a history that the achievements are judged by.
#[derive(Debug, Clone, Copy, PartialEq, Eq, Structural)]
pub struct AchievementFacts {
    pub total_sessions: u64,
    /// Days with a session.
    pub distinct_session_days: u64,
    /// Calendar weeks with a session.
    pub distinct_session_weeks: u64,
    /// Minutes worked in all.
    pub total_minutes: u128,
    /// Whether some session was paid, hourly or fixed, at more than nothing.
    pub has_paid_session: bool,
    /// Days on which the analytics were viewed.
    pub analytics_view_days: u64,
    /// Different time ranges that the analytics were viewed with.
    pub analytics_ranges: u64,
    /// Whether the analytics and the advisor were used on one day.
    pub analytics_and_advisor_same_day: bool,
    /// Whether no session of the seven latest days with sessions is longer
    /// than six hours.
    pub paced_week: bool,
    /// Whether some seven days with sessions in a row average under eight
    /// hours.
    pub sustainable_week: bool,
    /// Whether some weekend with a session has under three hours.
    pub human_weekend: bool,
}

/// Whether the facts meet the condition of an achievement.
pub open spec fn condition_met(f: AchievementFacts, id: AchievementId) -> bool {
    match id {
        AchievementId::FirstStep => f.total_sessions >= 1,
        AchievementId::BackAgain => f.distinct_session_days >= 3,
        AchievementId::GettingComfortable => f.total_sessions >= 10,
        AchievementId::PartOfRoutine => f.distinct_session_days >= 7,
        AchievementId::CuriousMind => f.analytics_view_days >= 1,
        AchievementId::PatternNoticed => f.analytics_view_days >= 5,
        AchievementId::ZoomedOut => f.analytics_ranges >= 3,
        AchievementId::ConnectingDots => f.analytics_and_advisor_same_day,
        AchievementId::PacedYourself => f.paced_week,
        AchievementId::SustainableWeek => f.sustainable_week,
        AchievementId::HumanWeekend => f.human_weekend,
        AchievementId::LongRun => f.distinct_session_weeks >= 3,
        AchievementId::OneFullMonth => f.distinct_session_weeks >= 4,
        AchievementId::HundredHours => f.total_minutes >= 6000,
        AchievementId::FirstDollar => f.has_paid_session,
    }
}

/// Whether the facts meet the condition of an achievement.
pub fn meets_condition(f: &AchievementFacts, id: AchievementId) -> (r: bool)
    ensures
        r == condition_met(*f, id),
{
    match id {
        AchievementId::FirstStep => f.total_sessions >= 1,
        AchievementId::BackAgain => f.distinct_session_days >= 3,
        AchievementId::GettingComfortable => f.total_sessions >= 10,
        AchievementId::PartOfRoutine => f.distinct_session_days >= 7,
        AchievementId::CuriousMind => f.analytics_view_days >= 1,
        AchievementId::PatternNoticed => f.analytics_view_days >= 5,
        AchievementId::ZoomedOut => f.analytics_ranges >= 3,
        AchievementId::ConnectingDots => f.analytics_and_advisor_same_day,
        AchievementId::PacedYourself => f.paced_week,
        AchievementId::SustainableWeek => f.sustainable_week,
        AchievementId::HumanWeekend => f.human_weekend,
        AchievementId::LongRun => f.distinct_session_weeks >= 3,
        AchievementId::OneFullMonth => f.distinct_session_weeks >= 4,
        AchievementId::HundredHours => f.total_minutes >= 6000,
        AchievementId::FirstDollar => f.has_paid_session,
    }
}

/// Whether the facts meet the condition of the achievement stored under a
/// key. No condition is met for a key that names no achievement.
pub fn check_achievement_condition(f: &AchievementFacts, achievement_id: &str) -> (r: bool)
    ensures
        r == match AchievementId::of_key(achievement_id@) {
            Some(id) => condition_met(*f, id),
            None => false,
        },
{
    match AchievementId::from_key(achievement_id) {
        Some(id) => meets_condition(f, id),
        None => false,
    }
}

/// The achievements that are unlocked, each with the time at which it was.
/// An achievement is unlocked at most once and never locked again.
#[derive(Debug, Clone)]
pub struct UnlockedSet {
    slots: Vec<Option<String>>,
}

impl UnlockedSet {
    /// Whether the set is well formed.
    pub closed spec fn wf(&self) -> bool {
        self.slots@.len() == ACHIEVEMENT_COUNT
    }

    /// The time at which an achievement was unlocked, if it was.
    pub closed spec fn time_of(&self, id: AchievementId) -> Option<String> {
        self.slots@[id.index()]
    }

    /// Whether an achievement is unlocked.
    pub open spec fn holds(&self, id: AchievementId) -> bool {
        self.time_of(id).is_some()
    }

    /// The set with nothing unlocked.
    pub fn new() -> (s: UnlockedSet)
        ensures
            s.wf(),
            forall|id: AchievementId| !s.holds(id),
    {
        let mut slots: Vec<Option<String>> = Vec::new();
        let mut i: usize = 0;
        while i < ACHIEVEMENT_COUNT
            invariant
                i <= ACHIEVEMENT_COUNT,
                slots@.len() == i,
                forall|j: int| 0 <= j < i ==> slots@[j].is_none(),
            decreases ACHIEVEMENT_COUNT - i,
        {
            slots.push(None);
            i = i + 1;
        }
        UnlockedSet { slots }
    }

    /// Whether an achievement is unlocked.
    pub fn is_unlocked(&self, id: AchievementId) -> (r: bool)
        requires
            self.wf(),
        ensures
            r == self.holds(id),
    {
        self.slots[id.position()].is_some()
    }

    /// The time at which an achievement was unlocked, if it was.
    pub fn unlocked_at(&self, id: AchievementId) -> (r: Option<String>)
        requires
            self.wf(),
        ensures
            r == self.time_of(id),
    {
        match &self.slots[id.position()] {
            Some(t) => Some(t.clone()),
            None => None,
        }
    }

    /// Whether `after` is what `before` becomes when the achievement is
    /// unlocked at the time given, and `is_new` what the unlocking reports:
    /// a locked achievement becomes unlocked at that time, which is new; an
    /// unlocked one stays as it is; all others stay as they are.
    pub open spec fn unlocks(
        before: UnlockedSet,
        id: AchievementId,
        timestamp: String,
        after: UnlockedSet,
        is_new: bool,
    ) -> bool {
        &&& after.wf()
        &&& is_new == !before.holds(id)
        &&& after.time_of(id) == if is_new {
            Some(timestamp)
        } else {
            before.time_of(id)
        }
        &&& forall|other: AchievementId| other != id ==> after.time_of(other) == before.time_of(other)
    }

    /// Unlocks an achievement at the time given, unless it is unlocked
    /// already; says whether it was newly unlocked.
    pub fn unlock_achievement(&mut self, id: AchievementId, timestamp: String) -> (is_new: bool)
        requires
            old(self).wf(),
        ensures
            UnlockedSet::unlocks(*old(self), id, timestamp, *final(self), is_new),
    {
        let i = id.position();
        if self.slots[i].is_some() {
            false
        } else {
            self.slots.set(i, Some(timestamp));
            true
        }
    }
}

/// Unlocking an achievement a second time reports nothing new and changes
/// nothing.
pub proof fn law_unlock_twice(
    s0: UnlockedSet,
    s1: UnlockedSet,
    s2: UnlockedSet,
    id: AchievementId,
    t1: String,
    t2: String,
    new1: bool,
    new2: bool,
)
    requires
        s0.wf(),
        UnlockedSet::unlocks(s0, id, t1, s1, new1),
        UnlockedSet::unlocks(s1, id, t2, s2, new2),
    ensures
        !new2,
        forall|x: AchievementId| s2.time_of(x) == s1.time_of(x),
{
    assert forall|x: AchievementId| s2.time_of(x) == s1.time_of(x) by {
        if x != id {
        }
    }
}

/// Whether an achievement is due: locked, with its condition met.
pub open spec fn due(s: UnlockedSet, f: AchievementFacts, id: AchievementId) -> bool {
    !s.holds(id) && condition_met(f, id)
}

/// The due achievements among the first `n` of the fixed order, in that
/// order.
pub open spec fn due_among(s: UnlockedSet, f: AchievementFacts, n: int) -> Seq<AchievementId>
    decreases n,
{
    if n <= 0 {
        Seq::empty()
    } else {
        let before = due_among(s, f, n - 1);
        if due(s, f, AchievementId::at(n - 1)) {
            before.push(AchievementId::at(n - 1))
        } else {
            before
        }
    }
}

/// Whether `after` and `newly` are what a check of the facts at the time
/// `now` makes of `before`: the due achievements are reported, in the
/// fixed order, and unlocked at that time; nothing else changes.
pub open spec fn checks(
    before: UnlockedSet,
    f: AchievementFacts,
    now: Seq<char>,
    after: UnlockedSet,
    newly: Seq<AchievementId>,
) -> bool {
    &&& after.wf()
    &&& newly == due_among(before, f, ACHIEVEMENT_COUNT as int)
    &&& forall|id: AchievementId|
        due(before, f, id) ==> after.holds(id) && (#[trigger] after.time_of(id)).unwrap()@ == now
    &&& forall|id: AchievementId|
        !due(before, f, id) ==> #[trigger] after.time_of(id) == before.time_of(id)
}

/// An achievement is among the due ones of the first `n` exactly if it is
/// due and among the first `n`.
pub proof fn lemma_due_among(s: UnlockedSet, f: AchievementFacts, n: int, id: AchievementId)
    requires
        0 <= n <= ACHIEVEMENT_COUNT,
    ensures
        due_among(s, f, n).contains(id) <==> due(s, f, id) && id.index() < n,
    decreases n,
{
    if n > 0 {
        lemma_due_among(s, f, n - 1, id);
        let before = due_among(s, f, n - 1);
        let last = AchievementId::at(n - 1);
        assert(last.index() == n - 1);
        assert(AchievementId::at(id.index()) == id);
        if due(s, f, last) {
            let all = before.push(last);
            if before.contains(id) {
                let k = choose|k: int| 0 <= k < before.len() && before[k] == id;
                assert(all[k] == id);
            }
            if id == last {
                assert(all[before.len() as int] == id);
            }
            if all.contains(id) {
                let k = choose|k: int| 0 <= k < all.len() && all[k] == id;
                if k < before.len() {
                    assert(before[k] == id);
                }
            }
        }
    }
}

/// Judges each locked achievement by the facts and unlocks, at the time
/// `now`, those whose condition is met; reports the newly unlocked ones in
/// the fixed order.
pub fn check_and_unlock_achievements(
    state: &mut UnlockedSet,
    f: &AchievementFacts,
    now: &str,
) -> (newly: Vec<AchievementId>)
    requires
        old(state).wf(),
    ensures
        checks(*old(state), *f, now@, *final(state), newly@),
{
    let mut newly: Vec<AchievementId> = Vec::new();
    let mut i: usize = 0;
    while i < ACHIEVEMENT_COUNT
        invariant
            i <= ACHIEVEMENT_COUNT,
            state.wf(),
            old(state).wf(),
            newly@ == due_among(*old(state), *f, i as int),
            forall|id: AchievementId|
                id.index() < i && due(*old(state), *f, id) ==> state.holds(id) && (
                #[trigger] state.time_of(id)).unwrap()@ == now@,
            forall|id: AchievementId|
                !(id.index() < i && due(*old(state), *f, id)) ==> #[trigger] state.time_of(id)
                    == old(state).time_of(id),
        decreases ACHIEVEMENT_COUNT - i,
    {
        let id = AchievementId::nth(i);
        if !state.is_unlocked(id) && meets_condition(f, id) {
            let is_new = state.unlock_achievement(id, now.to_string());
            if is_new {
                newly.push(id);
            }
        }
        proof {
            assert forall|x: AchievementId| x.index() < i + 1 implies (x.index() < i || x == id) by {
                assert(AchievementId::at(x.index()) == x);
            }
        }
        i = i + 1;
    }
    newly
}

/// An achievement that one check reports as newly unlocked is not reported
/// by the next check, whatever the facts then are; and what is unlocked
/// stays unlocked, at the time at which it was.
pub proof fn law_newly_unlocked_once(
    s0: UnlockedSet,
    s1: UnlockedSet,
    s2: UnlockedSet,
    f1: AchievementFacts,
    f2: AchievementFacts,
    now1: Seq<char>,
    now2: Seq<char>,
    newly1: Seq<AchievementId>,
    newly2: Seq<AchievementId>,
    id: AchievementId,
)
    requires
        s0.wf(),
        checks(s0, f1, now1, s1, newly1),
        checks(s1, f2, now2, s2, newly2),
    ensures
        !(newly1.contains(id) && newly2.contains(id)),
        s0.holds(id) ==> s1.time_of(id) == s0.time_of(id),
        s1.holds(id) ==> s2.time_of(id) == s1.time_of(id),
        newly1.contains(id) ==> !s0.holds(id) && s1.holds(id) && s2.holds(id),
{
    lemma_due_among(s0, f1, ACHIEVEMENT_COUNT as int, id);
    lemma_due_among(s1, f2, ACHIEVEMENT_COUNT as int, id);
}

/// No achievement is reported twice by one check.
pub proof fn law_newly_unlocked_distinct(s: UnlockedSet, f: AchievementFacts, n: int)
    requires
        0 <= n <= ACHIEVEMENT_COUNT,
    ensures
        due_among(s, f, n).no_duplicates(),
    decreases n,
{
    if n > 0 {
        law_newly_unlocked_distinct(s, f, n - 1);
        let before = due_among(s, f, n - 1);
        let last = AchievementId::at(n - 1);
        lemma_due_among(s, f, n - 1, last);
        assert(last.index() == n - 1);
    }
}

/// The row of an achievement as it is shown.
pub open spec fn shows(row: Achievement, s: UnlockedSet, id: AchievementId) -> bool {
    &&& row.id@ == id.key()
    &&& row.name@ == id.title()
    &&& row.description@ == id.blurb()
    &&& row.category == id.group()
    &&& row.icon@ == id.emblem()
    &&& row.unlocked == s.holds(id)
    &&& row.unlocked_at == s.time_of(id)
}

/// All achievements in their fixed order, each with whether and when it
/// was unlocked.
pub fn get_achievements(state: &UnlockedSet) -> (rows: Vec<Achievement>)
    requires
        state.wf(),
    ensures
        rows@.len() == ACHIEVEMENT_COUNT,
        forall|i: int|
            0 <= i < ACHIEVEMENT_COUNT ==> shows(#[trigger] rows@[i], *state, AchievementId::at(i)),
{
    let mut rows: Vec<Achievement> = Vec::new();
    let mut i: usize = 0;
    while i < ACHIEVEMENT_COUNT
        invariant
            i <= ACHIEVEMENT_COUNT,
            state.wf(),
            rows@.len() == i,
            forall|j: int| 0 <= j < i ==> shows(#[trigger] rows@[j], *state, AchievementId::at(j)),
        decreases ACHIEVEMENT_COUNT - i,
    {
        let id = AchievementId::nth(i);
        let at = state.unlocked_at(id);
        rows.push(
            Achievement {
                id: id.as_key(),
                name: id.name(),
                description: id.description(),
                category: id.category(),
                icon: id.icon(),
                unlocked: at.is_some(),
                unlocked_at: at,
            },
        );
        i = i + 1;
    }
    rows
}

} // verus!
