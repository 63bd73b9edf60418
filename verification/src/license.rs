//! Tiers, the license, and what a tier allows.

use vstd::prelude::*;
use vstd::string::*;
use crate::text::same_text;

verus! {

/// The level that decides which features are open.
#[derive(Debug, Clone, Copy, PartialEq, Eq, Structural)]
pub enum Tier {
    Free,
    Pro,
    Lifetime,
}

impl Tier {
    /// The label under which a tier is stored.
    pub open spec fn label(self) -> Seq<char> {
        match self {
            Tier::Free => "Free"@,
            Tier::Pro => "Pro"@,
            Tier::Lifetime => "Lifetime"@,
        }
    }

    /// The tier that a stored label names; `Free` for any other text.
    pub open spec fn parse(text: Seq<char>) -> Tier {
        if text == "Pro"@ {
            Tier::Pro
        } else if text == "Lifetime"@ {
            Tier::Lifetime
        } else {
            Tier::Free
        }
    }

    /// The tier that the license server names, in lower case; `Free` for
    /// any other text.
    pub open spec fn parse_granted(text: Seq<char>) -> Tier {
        if text == "lifetime"@ {
            Tier::Lifetime
        } else if text == "pro"@ {
            Tier::Pro
        } else {
            Tier::Free
        }
    }

    pub fn to_string(&self) -> (r: String)
        ensures
            r@ == self.label(),
    {
        match self {
            Tier::Free => "Free".to_string(),
            Tier::Pro => "Pro".to_string(),
            Tier::Lifetime => "Lifetime".to_string(),
        }
    }

    /// Reads a stored label. A label that names no tier reads as `Free`.
    pub fn from_string(s: &str) -> (r: Tier)
        ensures
            r == Tier::parse(s@),
    {
        if same_text(s, "Pro") {
            Tier::Pro
        } else if same_text(s, "Lifetime") {
            Tier::Lifetime
        } else {
            Tier::Free
        }
    }

    /// Reads the tier that the license server grants.
    pub fn from_granted(s: &str) -> (r: Tier)
        ensures
            r == Tier::parse_granted(s@),
    {
        if same_text(s, "lifetime") {
            Tier::Lifetime
        } else if same_text(s, "pro") {
            Tier::Pro
        } else {
            Tier::Free
        }
    }
}

/// The license as it is kept on the machine.
#[derive(Debug, Clone)]
pub struct License {
    pub tier: Tier,
    pub license_key: Option<String>,
    pub activated_at: Option<String>,
    pub expires_at: Option<String>,
}

impl Default for License {
    /// The license of someone who has none: the free tier.
    fn default() -> (r: License)
        ensures
            r.tier == Tier::Free,
            r.license_key.is_none(),
            r.activated_at.is_none(),
            r.expires_at.is_none(),
    {
        License { tier: Tier::Free, license_key: None, activated_at: None, expires_at: None }
    }
}

impl License {
    /// The license that an activation at the time `now` yields: the tier
    /// granted, under the key, without an end.
    pub fn activated(tier: Tier, license_key: String, now: String) -> (r: License)
        ensures
            r.tier == tier,
            r.license_key == Some(license_key),
            r.activated_at == Some(now),
            r.expires_at.is_none(),
    {
        License { tier, license_key: Some(license_key), activated_at: Some(now), expires_at: None }
    }
}

/// What a tier allows. A limit of `None` is no limit.
#[derive(Debug, Clone, Copy, PartialEq, Eq, Structural)]
pub struct FeatureLimits {
    pub max_session_types: Option<u32>,
    pub max_goals: Option<u32>,
    /// The days of history that the analytics reach back.
    pub analytics_days: Option<u32>,
    pub has_invoices: bool,
    pub has_ai_advisor: bool,
    pub has_voice_input: bool,
    pub has_simulator: bool,
    pub has_pdf_export: bool,
}

/// What a tier allows: the free tier two session types, three goals, seven
/// days of analytics and the advisor; the paid tiers everything.
pub open spec fn limits_of(tier: Tier) -> FeatureLimits {
    match tier {
        Tier::Free => FeatureLimits {
            max_session_types: Some(2),
            max_goals: Some(3),
            analytics_days: Some(7),
            has_invoices: false,
            has_ai_advisor: true,
            has_voice_input: false,
            has_simulator: false,
            has_pdf_export: false,
        },
        _ => FeatureLimits {
            max_session_types: None,
            max_goals: None,
            analytics_days: None,
            has_invoices: true,
            has_ai_advisor: true,
            has_voice_input: true,
            has_simulator: true,
            has_pdf_export: true,
        },
    }
}

impl FeatureLimits {
    pub fn for_tier(tier: Tier) -> (r: FeatureLimits)
        ensures
            r == limits_of(tier),
    {
        match tier {
            Tier::Free => FeatureLimits {
                max_session_types: Some(2),
                max_goals: Some(3),
                analytics_days: Some(7),
                has_invoices: false,
                has_ai_advisor: true,
                has_voice_input: false,
                has_simulator: false,
                has_pdf_export: false,
            },
            Tier::Pro | Tier::Lifetime => FeatureLimits {
                max_session_types: None,
                max_goals: None,
                analytics_days: None,
                has_invoices: true,
                has_ai_advisor: true,
                has_voice_input: true,
                has_simulator: true,
                has_pdf_export: true,
            },
        }
    }
}

/// How many session types and goals there are.
#[derive(Debug, Clone, Copy, PartialEq, Eq, Structural)]
pub struct CurrentUsage {
    pub session_type_count: u32,
    pub goal_count: u32,
}

/// Whether one more of a thing may be created.
#[derive(Debug, Clone)]
pub struct LimitCheck {
    pub allowed: bool,
    pub current: u32,
    pub limit: Option<u32>,
    pub feature: String,
}

/// Whether a count is below a limit; any count is below no limit.
pub open spec fn below_limit(current: u32, limit: Option<u32>) -> bool {
    match limit {
        Some(max) => current < max,
        None => true,
    }
}

fn is_below(current: u32, limit: Option<u32>) -> (r: bool)
    ensures
        r == below_limit(current, limit),
{
    match limit {
        Some(max) => current < max,
        None => true,
    }
}

/// Whether one more session type may be created at a tier that has `count`
/// of them.
pub fn can_create_session_type(tier: Tier, count: u32) -> (r: LimitCheck)
    ensures
        r.allowed == below_limit(count, limits_of(tier).max_session_types),
        r.current == count,
        r.limit == limits_of(tier).max_session_types,
        r.feature@ == "session_types"@,
{
    let limits = FeatureLimits::for_tier(tier);
    LimitCheck {
        allowed: is_below(count, limits.max_session_types),
        current: count,
        limit: limits.max_session_types,
        feature: "session_types".to_string(),
    }
}

/// Whether one more goal may be created at a tier that has `count` of them.
pub fn can_create_goal(tier: Tier, count: u32) -> (r: LimitCheck)
    ensures
        r.allowed == below_limit(count, limits_of(tier).max_goals),
        r.current == count,
        r.limit == limits_of(tier).max_goals,
        r.feature@ == "goals"@,
{
    let limits = FeatureLimits::for_tier(tier);
    LimitCheck {
        allowed: is_below(count, limits.max_goals),
        current: count,
        limit: limits.max_goals,
        feature: "goals".to_string(),
    }
}

/// What a tier allows.
pub fn get_feature_limits(license: &License) -> (r: FeatureLimits)
    ensures
        r == limits_of(license.tier),
{
    FeatureLimits::for_tier(license.tier)
}

} // verus!
