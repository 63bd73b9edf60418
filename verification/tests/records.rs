use chronodesk::assistant::{advisor_access, AIResponse};
use chronodesk::date::Date;
use chronodesk::habits::{
    accept_suggestion, get_pending_habits, habit_trigger_minutes, with_streaks,
    ActivitySuggestion, Habit, HabitLog,
};
use chronodesk::invoice::{bill_session, create_invoice, InvoiceStatus, NewInvoice};
use chronodesk::license::{
    can_create_goal, can_create_session_type, get_feature_limits, FeatureLimits, License, Tier,
};
use chronodesk::models::{PayType, WorkSession};

fn session(id: i64, category: Option<&str>, project: &str, minutes: u16, rate: Option<u32>, fee: Option<u32>, pay_type: Option<PayType>) -> WorkSession {
    WorkSession {
        id,
        session_type_id: 1,
        session_type_name: category.map(|n| n.to_string()),
        date: "2024-03-04".to_string(),
        project_name: project.to_string(),
        minutes,
        description: None,
        pay_type,
        hourly_rate: rate,
        fixed_amount: fee,
    }
}

fn habit(id: i64, trigger: &str, value: u32, active: bool) -> Habit {
    Habit {
        id,
        name: "Walk".to_string(),
        description: None,
        trigger_type: trigger.to_string(),
        trigger_value: value,
        reward_description: "Tea".to_string(),
        is_active: active,
        current_streak: 0,
        best_streak: 0,
        total_completions: 3,
        target_streak: 0,
        trigger_minutes: None,
    }
}

#[test]
fn invoice_status_labels() {
    for s in [InvoiceStatus::Draft, InvoiceStatus::Sent, InvoiceStatus::Paid, InvoiceStatus::Overdue] {
        assert_eq!(InvoiceStatus::from_string(&s.to_string()), Ok(s));
        assert_eq!(InvoiceStatus::from_stored(&s.to_string()), s);
    }
    assert_eq!(InvoiceStatus::Overdue.to_string(), "Overdue");
    assert_eq!(InvoiceStatus::from_string("Void"), Err("Invalid invoice status: Void".to_string()));
    assert_eq!(InvoiceStatus::from_string("paid"), Err("Invalid invoice status: paid".to_string()));
}

#[test]
fn a_stored_status_reads_leniently() {
    assert_eq!(InvoiceStatus::from_stored("Void"), InvoiceStatus::Draft);
    assert_eq!(InvoiceStatus::from_stored(""), InvoiceStatus::Draft);
    assert_eq!(InvoiceStatus::from_stored("Paid"), InvoiceStatus::Paid);
}

#[test]
fn an_invoice_copies_its_sessions() {
    let sessions = vec![
        session(11, Some("Design"), "Logo", 90, Some(6000), None, Some(PayType::Hourly)),
        session(12, None, "Flyer", 30, Some(6000), Some(2500), Some(PayType::Fixed)),
        session(13, Some("Design"), "Chat", 45, None, None, None),
    ];
    let new = NewInvoice {
        client_name: "Acme".to_string(),
        client_email: Some("pay@acme.test".to_string()),
        due_date: "2024-04-01".to_string(),
        tax_rate: Some(1950),
        notes: None,
        session_ids: vec![11, 12, 13],
    };
    let inv = create_invoice(&new, &sessions, 41, "2024-03-15".to_string());
    assert_eq!(inv.id, 0);
    assert_eq!(inv.invoice_number, "INV-0042");
    assert_eq!(inv.client_name, "Acme");
    assert_eq!(inv.client_email, Some("pay@acme.test".to_string()));
    assert_eq!(inv.created_date, "2024-03-15");
    assert_eq!(inv.due_date, "2024-04-01");
    assert_eq!(inv.status, InvoiceStatus::Draft);
    assert_eq!(inv.subtotal, 9000 + 2500);
    assert_eq!(inv.tax_rate, Some(1950));
    // 19.5 percent of 115.00 is 22.425
    assert_eq!(inv.tax_amount, 2242);
    assert_eq!(inv.total, 11_500 + 2242);
    assert_eq!(inv.notes, None);
    assert_eq!(inv.items.len(), 3);
    assert_eq!(inv.items[0].session_id, Some(11));
    assert_eq!(inv.items[0].description, "Design - Logo");
    assert_eq!(inv.items[0].minutes, 90);
    assert_eq!(inv.items[0].rate, 6000);
    assert_eq!(inv.items[0].amount, 9000);
    assert_eq!(inv.items[1].description, "Work - Flyer");
    assert_eq!(inv.items[1].rate, 6000);
    assert_eq!(inv.items[1].amount, 2500);
    assert_eq!(inv.items[2].rate, 0);
    assert_eq!(inv.items[2].amount, 0);
    assert_eq!(bill_session(&sessions[2]).description, "Design - Chat");
}

#[test]
fn an_invoice_without_sessions_or_tax() {
    let new = NewInvoice {
        client_name: "Acme".to_string(),
        client_email: None,
        due_date: "2024-04-01".to_string(),
        tax_rate: None,
        notes: Some("thanks".to_string()),
        session_ids: Vec::new(),
    };
    let inv = create_invoice(&new, &Vec::new(), 0, "2024-03-15".to_string());
    assert_eq!(inv.invoice_number, "INV-0001");
    assert_eq!(inv.subtotal, 0);
    assert_eq!(inv.tax_amount, 0);
    assert_eq!(inv.total, 0);
    assert_eq!(inv.notes, Some("thanks".to_string()));
    assert!(inv.items.is_empty());
    let inv = create_invoice(&new, &Vec::new(), 9999, "2024-03-15".to_string());
    assert_eq!(inv.invoice_number, "INV-10000");
    let inv = create_invoice(&new, &Vec::new(), u64::MAX, "2024-03-15".to_string());
    assert_eq!(inv.invoice_number, "INV-18446744073709551616");
}

#[test]
fn habit_thresholds_in_minutes() {
    assert_eq!(habit_trigger_minutes("after_hours", 250), Some(150));
    assert_eq!(habit_trigger_minutes("after_hours", 33), Some(19));
    assert_eq!(habit_trigger_minutes("after_hours", u32::MAX), Some(2_576_980_377));
    assert_eq!(habit_trigger_minutes("after_session", 250), None);
    assert_eq!(habit_trigger_minutes("daily", 250), None);
}

#[test]
fn pending_habits_are_active_undone_and_triggered() {
    let habits = vec![
        habit(1, "daily", 0, true),
        habit(2, "daily", 0, false),
        habit(3, "daily", 0, true),
        habit(4, "after_session", 200, true),
        habit(5, "after_session", 201, true),
        habit(6, "after_hours", 150, true),
        habit(7, "after_hours", 151, true),
        habit(8, "whenever", 0, true),
    ];
    let done = vec![HabitLog { id: 1, habit_id: 3, completed_at: "2024-03-15 08:00:00".to_string(), notes: None }];
    // two sessions, an hour and a half
    let pending = get_pending_habits(&habits, &done, 2, 90);
    assert_eq!(pending.iter().map(|h| h.id).collect::<Vec<_>>(), vec![1, 4, 6]);
    assert_eq!(pending[1].trigger_type, "after_session");
    assert_eq!(pending[1].reward_description, "Tea");
    assert_eq!(pending[1].total_completions, 3);
    let pending = get_pending_habits(&habits, &Vec::new(), 0, 0);
    assert_eq!(pending.iter().map(|h| h.id).collect::<Vec<_>>(), vec![1, 3]);
    assert!(get_pending_habits(&Vec::new(), &done, 2, 90).is_empty());
}

#[test]
fn a_habit_is_shown_with_its_streaks() {
    let today = Date::parse("2024-03-15").unwrap();
    let completions = vec![
        today,
        today.plus_days(-1).unwrap(),
        today.plus_days(-5).unwrap(),
        today.plus_days(-6).unwrap(),
        today.plus_days(-7).unwrap(),
    ];
    let h = with_streaks(&habit(6, "after_hours", 150, true), &completions, today);
    assert_eq!(h.id, 6);
    assert_eq!(h.name, "Walk");
    assert_eq!(h.current_streak, 2);
    assert_eq!(h.best_streak, 3);
    assert_eq!(h.target_streak, 7);
    assert_eq!(h.trigger_minutes, Some(90));
    assert_eq!(h.total_completions, 3);
    let h = with_streaks(&habit(1, "daily", 0, true), &Vec::new(), today);
    assert_eq!((h.current_streak, h.best_streak, h.trigger_minutes), (0, 0, None));
}

#[test]
fn an_accepted_suggestion_becomes_an_unpaid_session() {
    let s = ActivitySuggestion {
        id: 5,
        date: "2024-03-15".to_string(),
        app_name: "Editor".to_string(),
        window_title: "main.rs".to_string(),
        suggested_project: None,
        suggested_session_type_id: None,
        duration_minutes: 95,
        start_time: "09:00".to_string(),
        end_time: "10:35".to_string(),
        status: "pending".to_string(),
    };
    let n = accept_suggestion(&s, 3, "Tools");
    assert_eq!(n.session_type_id, 3);
    assert_eq!(n.date, "2024-03-15");
    assert_eq!(n.project_name, "Tools");
    assert_eq!(n.minutes, 95);
    assert_eq!(n.description, Some("Auto-tracked: Editor - main.rs".to_string()));
    assert_eq!(n.pay_type, Some(PayType::Unpaid));
    assert_eq!(n.hourly_rate, None);
    assert_eq!(n.fixed_amount, None);
}

#[test]
fn tier_labels() {
    assert_eq!(Tier::Free.to_string(), "Free");
    assert_eq!(Tier::Pro.to_string(), "Pro");
    assert_eq!(Tier::Lifetime.to_string(), "Lifetime");
    assert_eq!(Tier::from_string("Pro"), Tier::Pro);
    assert_eq!(Tier::from_string("Lifetime"), Tier::Lifetime);
    assert_eq!(Tier::from_string("Free"), Tier::Free);
    assert_eq!(Tier::from_string("pro"), Tier::Free);
    assert_eq!(Tier::from_string(""), Tier::Free);
    assert_eq!(Tier::from_granted("pro"), Tier::Pro);
    assert_eq!(Tier::from_granted("lifetime"), Tier::Lifetime);
    assert_eq!(Tier::from_granted("Pro"), Tier::Free);
    assert_eq!(Tier::from_granted("free"), Tier::Free);
}

#[test]
fn limits_of_each_tier() {
    let free = FeatureLimits::for_tier(Tier::Free);
    assert_eq!(
        free,
        FeatureLimits {
            max_session_types: Some(2),
            max_goals: Some(3),
            analytics_days: Some(7),
            has_invoices: false,
            has_ai_advisor: true,
            has_voice_input: false,
            has_simulator: false,
            has_pdf_export: false,
        }
    );
    let open = FeatureLimits {
        max_session_types: None,
        max_goals: None,
        analytics_days: None,
        has_invoices: true,
        has_ai_advisor: true,
        has_voice_input: true,
        has_simulator: true,
        has_pdf_export: true,
    };
    assert_eq!(FeatureLimits::for_tier(Tier::Pro), open);
    assert_eq!(FeatureLimits::for_tier(Tier::Lifetime), open);
    assert_eq!(get_feature_limits(&License::default()), free);
}

#[test]
fn licenses() {
    let none = License::default();
    assert_eq!(none.tier, Tier::Free);
    assert_eq!(none.license_key, None);
    assert_eq!(none.activated_at, None);
    assert_eq!(none.expires_at, None);
    let l = License::activated(Tier::Pro, "KEY-1".to_string(), "2024-03-15 10:00:00".to_string());
    assert_eq!(l.tier, Tier::Pro);
    assert_eq!(l.license_key, Some("KEY-1".to_string()));
    assert_eq!(l.activated_at, Some("2024-03-15 10:00:00".to_string()));
    assert_eq!(l.expires_at, None);
    assert_eq!(get_feature_limits(&l), FeatureLimits::for_tier(Tier::Pro));
}

#[test]
fn creating_is_allowed_below_the_limit() {
    let c = can_create_session_type(Tier::Free, 1);
    assert!(c.allowed);
    assert_eq!(c.current, 1);
    assert_eq!(c.limit, Some(2));
    assert_eq!(c.feature, "session_types");
    assert!(!can_create_session_type(Tier::Free, 2).allowed);
    assert!(!can_create_session_type(Tier::Free, u32::MAX).allowed);
    let c = can_create_session_type(Tier::Pro, u32::MAX);
    assert!(c.allowed);
    assert_eq!(c.limit, None);
    let c = can_create_goal(Tier::Free, 2);
    assert!(c.allowed);
    assert_eq!(c.limit, Some(3));
    assert_eq!(c.feature, "goals");
    assert!(!can_create_goal(Tier::Free, 3).allowed);
    assert!(can_create_goal(Tier::Lifetime, 3).allowed);
}

#[test]
fn the_advisor_needs_a_key_and_a_device() {
    let refusal = "AI Advisor requires a valid license. Please activate your Pro license in Settings.";
    assert_eq!(advisor_access("KEY", "device"), Ok(()));
    assert_eq!(advisor_access("", "device"), Err(refusal.to_string()));
    assert_eq!(advisor_access("KEY", ""), Err(refusal.to_string()));
    assert_eq!(advisor_access("", ""), Err(refusal.to_string()));
}

#[test]
fn an_answer_with_gaps_is_filled_in() {
    let r = AIResponse::from_reply(Some("Rest more.".to_string()), Some(7), Some(100));
    assert_eq!(r.content, "Rest more.");
    assert_eq!(r.remaining_queries, 7);
    assert_eq!(r.daily_limit, 100);
    let r = AIResponse::from_reply(None, None, None);
    assert_eq!(r.content, "Sorry, I couldn't generate a response.");
    assert_eq!(r.remaining_queries, 0);
    assert_eq!(r.daily_limit, 10);
    let r = AIResponse::from_reply(Some(String::new()), Some(-1), Some((1i64 << 32) + 5));
    assert_eq!(r.content, "");
    assert_eq!(r.remaining_queries, -1);
    assert_eq!(r.daily_limit, 5);
}
