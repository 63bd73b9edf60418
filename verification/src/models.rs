//! The stored records and their closed sets of labels.

use vstd::prelude::*;
use vstd::string::*;
use crate::text::{same_text, is_blank};

verus! {

/// The shortest session that can be logged, in minutes (a tenth of an hour).
pub const MIN_SESSION_MINUTES: u16 = 6;

/// The longest session that can be logged, in minutes (a whole day).
pub const MAX_SESSION_MINUTES: u16 = 1440;

/// A user-defined category of sessions.
#[derive(Debug, Clone)]
pub struct SessionType {
    pub id: i64,
    pub name: String,
    pub color: String,
    /// Default rate in cents per hour.
    pub hourly_rate: Option<u32>,
}

/// What is needed to create a session type.
#[derive(Debug, Clone)]
pub struct NewSessionType {
    pub name: String,
    pub color: String,
    /// Default rate in cents per hour.
    pub hourly_rate: Option<u32>,
}

/// How a session is paid.
#[derive(Debug, Clone, Copy, PartialEq, Eq, Structural)]
pub enum PayType {
    /// No pay; stored under the label `None`.
    Unpaid,
    Hourly,
    Fixed,
}

impl PayType {
    /// The label under which a pay type is stored.
    pub open spec fn label(self) -> Seq<char> {
        match self {
            PayType::Unpaid => "None"@,
            PayType::Hourly => "Hourly"@,
            PayType::Fixed => "Fixed"@,
        }
    }

    /// The pay type that a stored label names, if any. The empty label
    /// names `Unpaid`.
    pub open spec fn parse(text: Seq<char>) -> Option<PayType> {
        if text == "None"@ || text == ""@ {
            Some(PayType::Unpaid)
        } else if text == "Hourly"@ {
            Some(PayType::Hourly)
        } else if text == "Fixed"@ {
            Some(PayType::Fixed)
        } else {
            None
        }
    }

    pub fn to_string(&self) -> (r: String)
        ensures
            r@ == self.label(),
    {
        match self {
            PayType::Unpaid => "None".to_string(),
            PayType::Hourly => "Hourly".to_string(),
            PayType::Fixed => "Fixed".to_string(),
        }
    }

    /// Reads a stored label; an unknown label is an error that quotes it.
    pub fn from_string(s: &str) -> (r: Result<PayType, String>)
        ensures
            match r {
                Ok(p) => PayType::parse(s@) == Some(p),
                Err(e) => PayType::parse(s@).is_none() && e@ == "Invalid pay type: "@ + s@,
            },
    {
        if same_text(s, "None") || same_text(s, "") {
            Ok(PayType::Unpaid)
        } else if same_text(s, "Hourly") {
            Ok(PayType::Hourly)
        } else if same_text(s, "Fixed") {
            Ok(PayType::Fixed)
        } else {
            Err("Invalid pay type: ".to_string().concat(s))
        }
    }
}

/// Why a session record is refused.
#[derive(Debug, Clone, Copy, PartialEq, Eq, Structural)]
pub enum SessionError {
    EmptyProjectName,
    HoursOutOfRange,
    EmptyDate,
}

impl SessionError {
    pub open spec fn text(self) -> Seq<char> {
        match self {
            SessionError::EmptyProjectName => "Project name cannot be empty"@,
            SessionError::HoursOutOfRange => "Hours must be between 0.1 and 24.0"@,
            SessionError::EmptyDate => "Date cannot be empty"@,
        }
    }

    pub fn message(&self) -> (r: String)
        ensures
            r@ == self.text(),
    {
        match self {
            SessionError::EmptyProjectName => "Project name cannot be empty".to_string(),
            SessionError::HoursOutOfRange => "Hours must be between 0.1 and 24.0".to_string(),
            SessionError::EmptyDate => "Date cannot be empty".to_string(),
        }
    }
}

/// The first rule that a session's fields break, in the order project
/// name, duration, date.
pub open spec fn session_fault(blank_name: bool, minutes: int, empty_date: bool) -> Option<
    SessionError,
> {
    if blank_name {
        Some(SessionError::EmptyProjectName)
    } else if minutes < MIN_SESSION_MINUTES || minutes > MAX_SESSION_MINUTES {
        Some(SessionError::HoursOutOfRange)
    } else if empty_date {
        Some(SessionError::EmptyDate)
    } else {
        None
    }
}

/// Judges a session's fields: whether its project name is blank, its
/// duration in minutes, and whether its date is empty.
pub fn check_session_fields(blank_name: bool, minutes: u16, empty_date: bool) -> (r: Result<
    (),
    SessionError,
>)
    ensures
        match r {
            Ok(_) => session_fault(blank_name, minutes as int, empty_date).is_none(),
            Err(e) => session_fault(blank_name, minutes as int, empty_date) == Some(e),
        },
{
    if blank_name {
        Err(SessionError::EmptyProjectName)
    } else if minutes < MIN_SESSION_MINUTES || minutes > MAX_SESSION_MINUTES {
        Err(SessionError::HoursOutOfRange)
    } else if empty_date {
        Err(SessionError::EmptyDate)
    } else {
        Ok(())
    }
}

/// One logged block of work.
#[derive(Debug, Clone)]
pub struct WorkSession {
    pub id: i64,
    pub session_type_id: i64,
    pub session_type_name: Option<String>,
    /// The day as stored, `YYYY-MM-DD`.
    pub date: String,
    pub project_name: String,
    /// Duration in minutes.
    pub minutes: u16,
    pub description: Option<String>,
    pub pay_type: Option<PayType>,
    /// Rate in cents per hour.
    pub hourly_rate: Option<u32>,
    /// Fixed fee in cents.
    pub fixed_amount: Option<u32>,
}

/// What a session earns, in cents: the rate times the duration for hourly
/// pay, rounded down to a cent; the fee for fixed pay; nothing otherwise.
/// A missing rate or fee counts as zero.
pub open spec fn pay_of(
    pay_type: Option<PayType>,
    hourly_rate: Option<u32>,
    fixed_amount: Option<u32>,
    minutes: u16,
) -> int {
    match pay_type {
        Some(PayType::Hourly) => match hourly_rate {
            Some(rate) => (rate as int * minutes as int) / 60,
            None => 0,
        },
        Some(PayType::Fixed) => match fixed_amount {
            Some(fee) => fee as int,
            None => 0,
        },
        _ => 0,
    }
}

/// No session earns more than this many cents.
pub const MAX_SESSION_PAY: u64 = 0x1_0000_0000_0000;

pub proof fn lemma_pay_bounds(
    pay_type: Option<PayType>,
    hourly_rate: Option<u32>,
    fixed_amount: Option<u32>,
    minutes: u16,
)
    ensures
        0 <= pay_of(pay_type, hourly_rate, fixed_amount, minutes) < MAX_SESSION_PAY,
{
    if let Some(rate) = hourly_rate {
        assert(rate as int * minutes as int <= 0xffff_ffff * 0xffff) by (nonlinear_arith)
            requires
                0 <= rate <= 0xffff_ffff,
                0 <= minutes <= 0xffff,
        ;
        assert(0 <= rate as int * minutes as int) by (nonlinear_arith)
            requires
                0 <= rate,
                0 <= minutes,
        ;
    }
}

impl WorkSession {
    /// What this session earns, in cents.
    pub open spec fn pay(&self) -> int {
        pay_of(self.pay_type, self.hourly_rate, self.fixed_amount, self.minutes)
    }

    /// What this session earns, in cents.
    pub fn calculate_pay(&self) -> (r: u64)
        ensures
            r == self.pay(),
            r < MAX_SESSION_PAY,
    {
        proof {
            lemma_pay_bounds(self.pay_type, self.hourly_rate, self.fixed_amount, self.minutes);
        }
        match self.pay_type {
            Some(PayType::Hourly) => match self.hourly_rate {
                Some(rate) => {
                    let rate64: u64 = rate as u64;
                    let minutes64: u64 = self.minutes as u64;
                    assert(rate64 * minutes64 <= 0xffff_ffff * 0xffff) by (nonlinear_arith)
                        requires
                            rate64 <= 0xffff_ffff,
                            minutes64 <= 0xffff,
                    ;
                    rate64 * minutes64 / 60
                },
                None => 0,
            },
            Some(PayType::Fixed) => match self.fixed_amount {
                Some(fee) => fee as u64,
                None => 0,
            },
            _ => 0,
        }
    }

    /// The first rule this record breaks, if it breaks one.
    pub open spec fn fault(&self) -> Option<SessionError> {
        session_fault(
            crate::text::trimmed(self.project_name@).len() == 0,
            self.minutes as int,
            self.date@.len() == 0,
        )
    }

    /// Accepts a record whose project name is not blank, whose duration is
    /// between a tenth of an hour and a day, and whose date is not empty.
    pub fn validate(&self) -> (r: Result<(), String>)
        ensures
            match r {
                Ok(_) => self.fault().is_none(),
                Err(e) => self.fault().is_some() && e@ == self.fault().unwrap().text(),
            },
    {
        let blank = is_blank(self.project_name.as_str());
        match check_session_fields(blank, self.minutes, self.date.as_str().is_empty()) {
            Ok(_) => Ok(()),
            Err(e) => Err(e.message()),
        }
    }
}

/// What is needed to log a session.
#[derive(Debug, Clone)]
pub struct NewSession {
    pub session_type_id: i64,
    pub date: String,
    pub project_name: String,
    /// Duration in minutes.
    pub minutes: u16,
    pub description: Option<String>,
    pub pay_type: Option<PayType>,
    /// Rate in cents per hour.
    pub hourly_rate: Option<u32>,
    /// Fixed fee in cents.
    pub fixed_amount: Option<u32>,
}

/// The kind of a financial goal.
#[derive(Debug, Clone, Copy, PartialEq, Eq, Structural)]
pub enum GoalType {
    Debt,
    Purchase,
    Savings,
}

impl GoalType {
    /// The label under which a goal type is stored.
    pub open spec fn label(self) -> Seq<char> {
        match self {
            GoalType::Debt => "Debt"@,
            GoalType::Purchase => "Purchase"@,
            GoalType::Savings => "Savings"@,
        }
    }

    /// The goal type that a stored label names, if any.
    pub open spec fn parse(text: Seq<char>) -> Option<GoalType> {
        if text == "Debt"@ {
            Some(GoalType::Debt)
        } else if text == "Purchase"@ {
            Some(GoalType::Purchase)
        } else if text == "Savings"@ {
            Some(GoalType::Savings)
        } else {
            None
        }
    }

    pub fn to_string(&self) -> (r: String)
        ensures
            r@ == self.label(),
    {
        match self {
            GoalType::Debt => "Debt".to_string(),
            GoalType::Purchase => "Purchase".to_string(),
            GoalType::Savings => "Savings".to_string(),
        }
    }

    /// Reads a stored label; an unknown label is an error that quotes it.
    pub fn from_string(s: &str) -> (r: Result<GoalType, String>)
        ensures
            match r {
                Ok(g) => GoalType::parse(s@) == Some(g),
                Err(e) => GoalType::parse(s@).is_none() && e@ == "Invalid goal type: "@ + s@,
            },
    {
        if same_text(s, "Debt") {
            Ok(GoalType::Debt)
        } else if same_text(s, "Purchase") {
            Ok(GoalType::Purchase)
        } else if same_text(s, "Savings") {
            Ok(GoalType::Savings)
        } else {
            Err("Invalid goal type: ".to_string().concat(s))
        }
    }
}

/// Why a goal record is refused.
#[derive(Debug, Clone, Copy, PartialEq, Eq, Structural)]
pub enum GoalError {
    EmptyName,
    TargetNotPositive,
    NegativeCurrent,
}

impl GoalError {
    pub open spec fn text(self) -> Seq<char> {
        match self {
            GoalError::EmptyName => "Goal name cannot be empty"@,
            GoalError::TargetNotPositive => "Target amount must be positive"@,
            GoalError::NegativeCurrent => "Current amount cannot be negative"@,
        }
    }

    pub fn message(&self) -> (r: String)
        ensures
            r@ == self.text(),
    {
        match self {
            GoalError::EmptyName => "Goal name cannot be empty".to_string(),
            GoalError::TargetNotPositive => "Target amount must be positive".to_string(),
            GoalError::NegativeCurrent => "Current amount cannot be negative".to_string(),
        }
    }
}

/// The first rule that a goal's fields break, in the order name, target
/// amount, current amount.
pub open spec fn goal_fault(blank_name: bool, target: int, current: int) -> Option<GoalError> {
    if blank_name {
        Some(GoalError::EmptyName)
    } else if target <= 0 {
        Some(GoalError::TargetNotPositive)
    } else if current < 0 {
        Some(GoalError::NegativeCurrent)
    } else {
        None
    }
}

/// Judges a goal's fields: whether its name is blank, and its target and
/// current amounts in cents.
pub fn check_goal_fields(blank_name: bool, target: i64, current: i64) -> (r: Result<(), GoalError>)
    ensures
        match r {
            Ok(_) => goal_fault(blank_name, target as int, current as int).is_none(),
            Err(e) => goal_fault(blank_name, target as int, current as int) == Some(e),
        },
{
    if blank_name {
        Err(GoalError::EmptyName)
    } else if target <= 0 {
        Err(GoalError::TargetNotPositive)
    } else if current < 0 {
        Err(GoalError::NegativeCurrent)
    } else {
        Ok(())
    }
}

/// A named amount of money to reach.
#[derive(Debug, Clone)]
pub struct FinancialGoal {
    pub id: i64,
    pub goal_type: GoalType,
    pub name: String,
    /// Cents to reach.
    pub target_amount: i64,
    /// Cents reached so far.
    pub current_amount: i64,
    pub created_date: String,
    pub target_date: Option<String>,
}

/// Progress toward a target in hundredths of a percent: the share reached,
/// rounded down and at most 10000; 0 for a target that is not positive.
pub open spec fn progress_of(target: int, current: int) -> int {
    if target <= 0 {
        0
    } else if (current * 10000) / target > 10000 {
        10000
    } else {
        (current * 10000) / target
    }
}

/// What is left to reach a target, in cents; never less than 0.
pub open spec fn remaining_of(target: int, current: int) -> int {
    if target - current > 0 {
        target - current
    } else {
        0
    }
}

/// Dividing a negative number rounds down, away from zero.
pub proof fn lemma_floor_of_negative(x: int, t: int)
    requires
        x > 0,
        t > 0,
    ensures
        (-x) / t == -((x + t - 1) / t),
{
    let q = (x + t - 1) / t;
    let r = (x + t - 1) % t;
    vstd::arithmetic::div_mod::lemma_fundamental_div_mod(x + t - 1, t);
    // x + t - 1 == t * q + r, 0 <= r < t, so -x == t * (-q) + (t - 1 - r)
    assert(t * (-q) == -(t * q)) by (nonlinear_arith);
    assert(-x == t * (-q) + (t - 1 - r));
    vstd::arithmetic::div_mod::lemma_fundamental_div_mod_converse(-x, t, -q, t - 1 - r);
}

impl FinancialGoal {
    /// Progress in hundredths of a percent, from 0 to 10000 for a goal
    /// whose amounts are valid.
    pub fn progress_percent(&self) -> (r: i128)
        ensures
            r == progress_of(self.target_amount as int, self.current_amount as int),
            r <= 10000,
    {
        if self.target_amount <= 0 {
            return 0;
        }
        let target: u128 = self.target_amount as u128;
        if self.current_amount >= 0 {
            let scaled: u128 = self.current_amount as u128 * 10000;
            let share: u128 = scaled / target;
            if share > 10000 {
                10000
            } else {
                share as i128
            }
        } else {
            let owed: u128 = (-(self.current_amount as i128)) as u128 * 10000;
            let share: u128 = (owed + target - 1) / target;
            proof {
                lemma_floor_of_negative(owed as int, target as int);
                assert(self.current_amount as int * 10000 == -(owed as int));
                let top: int = owed + target - 1;
                let t: int = target as int;
                assert(top / t <= top) by (nonlinear_arith)
                    requires
                        t > 0,
                        top >= 0,
                ;
            }
            -(share as i128)
        }
    }

    /// What is left to reach the target, in cents.
    pub fn remaining_amount(&self) -> (r: u64)
        ensures
            r == remaining_of(self.target_amount as int, self.current_amount as int),
    {
        let left: i128 = self.target_amount as i128 - self.current_amount as i128;
        if left > 0 {
            left as u64
        } else {
            0
        }
    }

    /// The first rule this record breaks, if it breaks one.
    pub open spec fn fault(&self) -> Option<GoalError> {
        goal_fault(
            crate::text::trimmed(self.name@).len() == 0,
            self.target_amount as int,
            self.current_amount as int,
        )
    }

    /// Accepts a record whose name is not blank, whose target is positive
    /// and whose current amount is not negative.
    pub fn validate(&self) -> (r: Result<(), String>)
        ensures
            match r {
                Ok(_) => self.fault().is_none(),
                Err(e) => self.fault().is_some() && e@ == self.fault().unwrap().text(),
            },
    {
        let blank = is_blank(self.name.as_str());
        match check_goal_fields(blank, self.target_amount, self.current_amount) {
            Ok(_) => Ok(()),
            Err(e) => Err(e.message()),
        }
    }
}

/// What is needed to create a goal.
#[derive(Debug, Clone)]
pub struct NewGoal {
    pub goal_type: GoalType,
    pub name: String,
    /// Cents to reach.
    pub target_amount: i64,
    /// Cents reached so far.
    pub current_amount: i64,
    pub created_date: String,
    pub target_date: Option<String>,
}

/// A project name that was used with a session type.
#[derive(Debug, Clone)]
pub struct ProjectCache {
    pub id: i64,
    pub project_name: String,
    pub session_type_id: i64,
    pub last_used: String,
}

/// The first rule that a session to be logged breaks: its duration is
/// judged first, then its project name.
pub open spec fn new_session_fault(blank_name: bool, minutes: int) -> Option<SessionError> {
    if minutes < MIN_SESSION_MINUTES || minutes > MAX_SESSION_MINUTES {
        Some(SessionError::HoursOutOfRange)
    } else if blank_name {
        Some(SessionError::EmptyProjectName)
    } else {
        None
    }
}

/// Judges the fields of a session to be logged: whether its project name
/// is blank, and its duration in minutes.
pub fn check_new_session_fields(blank_name: bool, minutes: u16) -> (r: Result<(), SessionError>)
    ensures
        match r {
            Ok(_) => new_session_fault(blank_name, minutes as int).is_none(),
            Err(e) => new_session_fault(blank_name, minutes as int) == Some(e),
        },
{
    if minutes < MIN_SESSION_MINUTES || minutes > MAX_SESSION_MINUTES {
        Err(SessionError::HoursOutOfRange)
    } else if blank_name {
        Err(SessionError::EmptyProjectName)
    } else {
        Ok(())
    }
}

impl NewSession {
    /// The first rule this session breaks, if it breaks one.
    pub open spec fn fault(&self) -> Option<SessionError> {
        new_session_fault(crate::text::trimmed(self.project_name@).len() == 0, self.minutes as int)
    }

    /// Accepts a session whose duration is between a tenth of an hour and
    /// a day and whose project name is not blank.
    pub fn validate(&self) -> (r: Result<(), String>)
        ensures
            match r {
                Ok(_) => self.fault().is_none(),
                Err(e) => self.fault().is_some() && e@ == self.fault().unwrap().text(),
            },
    {
        let blank = is_blank(self.project_name.as_str());
        match check_new_session_fields(blank, self.minutes) {
            Ok(_) => Ok(()),
            Err(e) => Err(e.message()),
        }
    }
}

/// The first rule that a goal to be created breaks: its target is judged
/// first, then its name.
pub open spec fn new_goal_fault(blank_name: bool, target: int) -> Option<GoalError> {
    if target <= 0 {
        Some(GoalError::TargetNotPositive)
    } else if blank_name {
        Some(GoalError::EmptyName)
    } else {
        None
    }
}

/// Judges the fields of a goal to be created: whether its name is blank,
/// and its target in cents.
pub fn check_new_goal_fields(blank_name: bool, target: i64) -> (r: Result<(), GoalError>)
    ensures
        match r {
            Ok(_) => new_goal_fault(blank_name, target as int).is_none(),
            Err(e) => new_goal_fault(blank_name, target as int) == Some(e),
        },
{
    if target <= 0 {
        Err(GoalError::TargetNotPositive)
    } else if blank_name {
        Err(GoalError::EmptyName)
    } else {
        Ok(())
    }
}

impl NewGoal {
    /// The first rule this goal breaks, if it breaks one.
    pub open spec fn fault(&self) -> Option<GoalError> {
        new_goal_fault(crate::text::trimmed(self.name@).len() == 0, self.target_amount as int)
    }

    /// Accepts a goal whose target is positive and whose name is not
    /// blank.
    pub fn validate(&self) -> (r: Result<(), String>)
        ensures
            match r {
                Ok(_) => self.fault().is_none(),
                Err(e) => self.fault().is_some() && e@ == self.fault().unwrap().text(),
            },
    {
        let blank = is_blank(self.name.as_str());
        match check_new_goal_fields(blank, self.target_amount) {
            Ok(_) => Ok(()),
            Err(e) => Err(e.message()),
        }
    }
}

impl NewSessionType {
    /// Accepts a session type whose name is not blank.
    pub fn validate(&self) -> (r: Result<(), String>)
        ensures
            match r {
                Ok(_) => crate::text::trimmed(self.name@).len() != 0,
                Err(e) => crate::text::trimmed(self.name@).len() == 0 && e@
                    == "Session type name cannot be empty"@,
            },
    {
        if is_blank(self.name.as_str()) {
            Err("Session type name cannot be empty".to_string())
        } else {
            Ok(())
        }
    }
}

/// Accepts a contribution to a goal that is above nothing, in cents.
pub fn validate_contribution(amount: i64) -> (r: Result<(), String>)
    ensures
        match r {
            Ok(_) => amount > 0,
            Err(e) => amount <= 0 && e@ == "Contribution amount must be positive"@,
        },
{
    if amount <= 0 {
        Err("Contribution amount must be positive".to_string())
    } else {
        Ok(())
    }
}

} // verus!
