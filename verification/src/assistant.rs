//! The answer of the advisor service, and who may ask it.

use vstd::prelude::*;
use vstd::string::*;

verus! {

/// An answer of the advisor, with what is left of the day's questions.
#[derive(Debug, Clone)]
pub struct AIResponse {
    pub content: String,
    pub remaining_queries: i32,
    pub daily_limit: i32,
}

/// The questions a day that are assumed where the service names no limit.
pub const DEFAULT_DAILY_LIMIT: i32 = 10;

/// Whether the advisor may be asked: only with a license key and a device
/// id, neither of them empty.
pub fn advisor_access(license_key: &str, device_id: &str) -> (r: Result<(), String>)
    ensures
        match r {
            Ok(_) => license_key@.len() > 0 && device_id@.len() > 0,
            Err(e) => (license_key@.len() == 0 || device_id@.len() == 0) && e@
                == "AI Advisor requires a valid license. Please activate your Pro license in Settings."@,
        },
{
    if license_key.is_empty() || device_id.is_empty() {
        Err(
            "AI Advisor requires a valid license. Please activate your Pro license in Settings.".to_string(),
        )
    } else {
        Ok(())
    }
}

/// A count that the service sent, cut down to 32 bits; the fallback where
/// it sent none.
pub open spec fn count_or(sent: Option<i64>, fallback: i32) -> i32 {
    match sent {
        Some(n) => n as i32,
        None => fallback,
    }
}

impl AIResponse {
    /// The answer as the service sent it. Where it sent no text an excuse
    /// stands in; where it sent no counts, nothing is left of a limit of
    /// ten.
    pub fn from_reply(content: Option<String>, remaining: Option<i64>, limit: Option<i64>) -> (r:
        AIResponse)
        ensures
            r.content@ == match content {
                Some(text) => text@,
                None => "Sorry, I couldn't generate a response."@,
            },
            r.remaining_queries == count_or(remaining, 0),
            r.daily_limit == count_or(limit, DEFAULT_DAILY_LIMIT),
    {
        let content = match content {
            Some(text) => text,
            None => "Sorry, I couldn't generate a response.".to_string(),
        };
        let remaining_queries = match remaining {
            Some(n) => #[verifier::truncate]
            (n as i32),
            None => 0,
        };
        let daily_limit = match limit {
            Some(n) => #[verifier::truncate]
            (n as i32),
            None => DEFAULT_DAILY_LIMIT,
        };
        AIResponse { content, remaining_queries, daily_limit }
    }
}

} // verus!
