use payments_backend::idempotency::{ledger_key, EventResult, IdempotencyStore};
use payments_backend::rate_limit::RateLimiter;
use payments_backend::subscription::{
    plan_from_name, status_from_provider, SubscriptionManager, SubscriptionPlan, SubscriptionStatus,
};

#[test]
fn admission_denies_the_call_past_capacity_within_the_window() {
    let mut rl = RateLimiter::new(3);
    let t0 = 1_000;
    assert!(rl.check_at("1.2.3.4", t0));
    assert!(rl.check_at("1.2.3.4", t0 + 10));
    assert!(rl.check_at("1.2.3.4", t0 + 59));
    assert!(!rl.check_at("1.2.3.4", t0 + 59));
    assert!(rl.check_at("5.6.7.8", t0 + 59));
}

#[test]
fn admission_reopens_after_the_window() {
    let mut rl = RateLimiter::new(2);
    let t0 = 5_000;
    assert!(rl.check_at("k", t0));
    assert!(rl.check_at("k", t0 + 1));
    assert!(!rl.check_at("k", t0 + 2));
    assert!(rl.check_at("k", t0 + 60));
    assert!(rl.check_at("k", t0 + 61));
    assert!(!rl.check_at("k", t0 + 62));
}

#[test]
fn admission_with_zero_capacity_denies_everything() {
    let mut rl = RateLimiter::new(0);
    assert!(!rl.check_at("k", 0));
    assert!(!rl.check_at("k", 100));
}

#[test]
fn admission_against_the_clock() {
    let mut rl = RateLimiter::new(1);
    assert!(rl.check("client"));
    assert!(!rl.check("client"));
}

#[test]
fn plan_keys() {
    assert_eq!(plan_from_name("basic"), SubscriptionPlan::Basic { monthly: true });
    assert_eq!(plan_from_name("basic_monthly"), SubscriptionPlan::Basic { monthly: true });
    assert_eq!(plan_from_name("basic_annual"), SubscriptionPlan::Basic { monthly: false });
    assert_eq!(plan_from_name("premium"), SubscriptionPlan::Premium { monthly: true });
    assert_eq!(plan_from_name("premium_monthly"), SubscriptionPlan::Premium { monthly: true });
    assert_eq!(plan_from_name("premium_annual"), SubscriptionPlan::Premium { monthly: false });
    assert_eq!(plan_from_name("gold"), SubscriptionPlan::Free);
    assert_eq!(plan_from_name(""), SubscriptionPlan::Free);
}

#[test]
fn provider_status_texts() {
    assert_eq!(status_from_provider("active"), SubscriptionStatus::Active);
    assert_eq!(status_from_provider("past_due"), SubscriptionStatus::PastDue);
    assert_eq!(status_from_provider("canceled"), SubscriptionStatus::Canceled);
    assert_eq!(status_from_provider("unpaid"), SubscriptionStatus::Unpaid);
    assert_eq!(status_from_provider("trialing"), SubscriptionStatus::Trialing);
    assert_eq!(status_from_provider("incomplete"), SubscriptionStatus::Incomplete);
    assert_eq!(status_from_provider("paused"), SubscriptionStatus::Active);
}

#[test]
fn activation_then_past_due_then_active() {
    let mut m = SubscriptionManager::new();
    let s = m.activate_with("a@x.com", Some("cus_1".to_string()), None, "premium_annual", 7, 100);
    assert_eq!(s.user_id, 7);
    assert_eq!(s.activated_at, 100);
    assert_eq!(s.status, SubscriptionStatus::Active);
    assert_eq!(s.plan, SubscriptionPlan::Premium { monthly: false });
    assert!(m.update_status("a@x.com", SubscriptionStatus::PastDue));
    assert_eq!(m.get_by_email("a@x.com").unwrap().status, SubscriptionStatus::PastDue);
    assert!(m.update_status("a@x.com", SubscriptionStatus::Active));
    let back = m.get_by_email("a@x.com").unwrap();
    assert_eq!(back.status, SubscriptionStatus::Active);
    assert_eq!(back.stripe_customer_id, Some("cus_1".to_string()));
}

#[test]
fn canceled_is_not_terminal() {
    let mut m = SubscriptionManager::new();
    m.activate_with("b@x.com", None, None, "basic", 1, 1);
    assert!(m.cancel_subscription("b@x.com"));
    assert_eq!(m.get_by_email("b@x.com").unwrap().status, SubscriptionStatus::Canceled);
    assert!(m.update_status("b@x.com", SubscriptionStatus::Active));
    assert_eq!(m.get_by_email("b@x.com").unwrap().status, SubscriptionStatus::Active);
}

#[test]
fn status_update_of_unknown_subscriber_is_a_no_op() {
    let mut m = SubscriptionManager::new();
    assert!(!m.update_status("nobody@x.com", SubscriptionStatus::PastDue));
    assert!(!m.cancel_subscription("nobody@x.com"));
    assert!(m.get_by_email("nobody@x.com").is_none());
}

#[test]
fn reactivation_overwrites_the_record() {
    let mut m = SubscriptionManager::new();
    m.activate_with("c@x.com", None, None, "basic", 1, 1);
    m.update_status("c@x.com", SubscriptionStatus::Unpaid);
    let s = m.activate_with("c@x.com", None, Some("sub_9".to_string()), "premium", 2, 50);
    assert_eq!(m.get_by_email("c@x.com").unwrap().user_id, 2);
    assert_eq!(s.status, SubscriptionStatus::Active);
    assert_eq!(s.stripe_subscription_id, Some("sub_9".to_string()));
}

#[test]
fn activation_against_the_clock() {
    let mut m = SubscriptionManager::new();
    let before = chrono::Utc::now().timestamp();
    let s = m.activate_subscription("d@x.com", None, None, "basic_annual");
    assert!(s.activated_at >= before);
    assert_eq!(s.plan, SubscriptionPlan::Basic { monthly: false });
    assert_eq!(s.email, "d@x.com");
    assert_eq!(m.get_by_email("d@x.com").unwrap().user_id, s.user_id);
}

#[test]
fn idempotency_records() {
    let mut store = IdempotencyStore::new();
    assert!(!store.is_processed("evt_1"));
    store.mark_processed_at("evt_1".to_string(), EventResult::Failed { error: "boom".to_string() }, 10);
    assert!(store.is_processed("evt_1"));
    assert!(!store.is_processed("evt_2"));
    let rec = store.record("evt_1").unwrap();
    assert_eq!(rec.processed_at, 10);
    assert!(matches!(rec.result, EventResult::Failed { ref error } if error == "boom"));
    store.mark_processed("evt_2".to_string(), EventResult::Duplicate);
    assert!(store.is_processed("evt_2"));
}

#[test]
fn ledger_keys_are_namespaced() {
    assert_eq!(ledger_key("stripe", "evt_1"), "stripe_event:evt_1");
    assert_eq!(ledger_key("paypal", ""), "paypal_event:");
}
