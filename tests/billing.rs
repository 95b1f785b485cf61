use class_sync::api::{
    initiate, signup_subscription, ChargeBody, InitiateBody, InitiateError, InitiateRes, SignupError,
};
use class_sync::records::SignupBody;
use class_sync::gateway::{
    check_availability, AvailabilityReply, CredentialCache, CredentialStep, NwaPay,
    RequestToPayRes, RetryDecision, RetryPolicy,
};
use class_sync::payment::{Payment, PaymentStatus};
use class_sync::plan::{find_plan, get_plans};
use class_sync::scheduler::{
    charge_candidates, check_charge_now, finish_charge, plan_charge, termination_pass,
    ChargeNowError, ChargeStep, CANCELLATION_REASON,
};
use class_sync::subscription::{
    subscription_gate, LifecycleEvent, Subscription, SubscriptionStatus,
};
use class_sync::webhook::{
    payment_success_notice, receive_webhook, reconcile, WebhookError, WebhookEvent, WebhookOutcome,
};
use class_sync::MS_PER_DAY;

const NOW: i64 = 1_700_000_000_000;
const SECRET: &str = "Jefe";
const BODY: &str = "what do ya want for nothing?";
const TAG: &str = "5bdcc146bf60754e6a042426089575c75a003f089d2739839dec58b964ec3843";

fn body(user: &str) -> InitiateBody {
    InitiateBody {
        user_id: user.to_string(),
        phone: "670000000".to_string(),
        network: "MTN".to_string(),
        plan_id: "premium_monthly".to_string(),
    }
}

fn trial(now: i64) -> Subscription {
    let plans = get_plans();
    initiate(body("u1"), &plans, &AvailabilityReply::Failed, false, "s1".to_string(), now).unwrap()
}

fn event(reference: &str, status: &str) -> WebhookEvent {
    WebhookEvent::from_fields(
        Some(reference.to_string()),
        Some(status.to_string()),
        Some("s1".to_string()),
        format!("{{\"reference\":\"{}\",\"status\":\"{}\"}}", reference, status),
    )
}

fn reply(reference: &str, status: &str) -> RequestToPayRes {
    RequestToPayRes::from_fields(Some(reference.to_string()), Some(status.to_string()))
}

/// Runs one sweep cycle's charge for the only subscription, with the given
/// gateway answer; returns the opened payment.
fn charge_once(sub: &mut Subscription, id: &str, now: i64, answer: Result<RequestToPayRes, String>) -> Payment {
    assert_eq!(plan_charge(sub, now, &AvailabilityReply::Failed), ChargeStep::Charge);
    let mut p = Payment::open(id.to_string(), sub, now);
    finish_charge(sub, &mut p, answer);
    p
}

#[test]
fn catalog_has_monthly_plan() {
    let plans = get_plans();
    assert_eq!(plans.len(), 1);
    let p = &plans[0];
    assert_eq!(p.id, "premium_monthly");
    assert_eq!(p.name, "Premium Monthly");
    assert_eq!(p.amount, 399);
    assert_eq!(p.currency, "XAF");
    assert_eq!(p.interval_days, 30);
    assert_eq!(p.trial_days, 7);
    assert_eq!(find_plan(&plans, "premium_monthly"), Some(0));
    assert_eq!(find_plan(&plans, "gold"), None);
}

#[test]
fn scenario_a_trial_created() {
    let s = trial(NOW);
    assert_eq!(s.status, SubscriptionStatus::Trial);
    assert_eq!(s.next_charge_due, NOW + 7 * MS_PER_DAY);
    assert_eq!(s.current_period_end, NOW + 7 * MS_PER_DAY);
    assert_eq!(s.attempt_count, 0);
    assert_eq!(s.amount, 399);
    assert_eq!(s.currency_code, "XAF");
    assert_eq!(s.plan_id, "premium_monthly");
    assert_eq!(s.payment_channel, "MTN");
    let res = InitiateRes::for_subscription(&s);
    assert_eq!(res.subscription_id, "s1");
    assert_eq!(res.status, "TRIAL");
}

#[test]
fn initiate_errors() {
    let plans = get_plans();
    let mut b = body("");
    assert_eq!(
        initiate(b, &plans, &AvailabilityReply::Failed, false, "s".to_string(), NOW).unwrap_err(),
        InitiateError::InvalidBody
    );
    b = body("u");
    let down = AvailabilityReply::Reported(Some("offline".to_string()));
    assert_eq!(initiate(b, &plans, &down, false, "s".to_string(), NOW).unwrap_err(), InitiateError::NetworkUnavailable);
    b = body("u");
    b.plan_id = "gold".to_string();
    assert_eq!(
        initiate(b, &plans, &AvailabilityReply::Failed, false, "s".to_string(), NOW).unwrap_err(),
        InitiateError::InvalidPlan
    );
    assert_eq!(
        initiate(body("u"), &plans, &AvailabilityReply::Failed, true, "s".to_string(), NOW).unwrap_err(),
        InitiateError::AlreadySubscribed
    );
}

#[test]
fn scenario_b_sweep_charges_due_subscription() {
    let mut s = trial(NOW);
    let later = s.next_charge_due;
    assert_eq!(plan_charge(&s, later - 1, &AvailabilityReply::Failed), ChargeStep::Skip);
    let subs = vec![s.clone()];
    assert_eq!(charge_candidates(&subs, later), vec![0]);
    let p = charge_once(&mut s, "p1", later, Ok(reply("R1", "PENDING")));
    assert!(matches!(p.status, PaymentStatus::Pending));
    assert_eq!(p.gateway_reference.as_deref(), Some("R1"));
    assert_eq!(p.attempt_number, 1);
    assert_eq!(p.amount, 399);
    assert_eq!(s.status, SubscriptionStatus::AwaitingPayment);
    assert_eq!(s.attempt_count, 1);
}

#[test]
fn gateway_failure_leaves_subscription() {
    let mut s = trial(NOW);
    let later = s.next_charge_due;
    let p = charge_once(&mut s, "p1", later, Err("Gateway Error: boom".to_string()));
    assert!(matches!(p.status, PaymentStatus::GatewayFailed));
    assert_eq!(p.gateway_reference, None);
    assert_eq!(s.status, SubscriptionStatus::Trial);
    assert_eq!(s.attempt_count, 0);
}

#[test]
fn scenario_c_success_webhook_and_duplicate() {
    let mut s = trial(NOW);
    let later = s.next_charge_due;
    let p = charge_once(&mut s, "p1", later, Ok(reply("R1", "PENDING")));
    let mut payments = vec![p];
    let mut subs = vec![s];
    let plans = get_plans();
    let gw = NwaPay::new(String::new(), String::new(), String::new(), SECRET.to_string());
    let at = later + 1000;
    let e = event("R1", "SUCCESS");
    let r = receive_webhook(&gw, TAG, BODY.as_bytes(), &mut payments, &mut subs, &plans, &e, at);
    assert_eq!(r, Ok(WebhookOutcome::Recorded { subscription_changed: true, notify_user: true }));
    assert!(matches!(payments[0].status, PaymentStatus::Success));
    assert_eq!(payments[0].completed_at, Some(at));
    assert_eq!(payments[0].webhook_log.len(), 1);
    assert_eq!(subs[0].status, SubscriptionStatus::Active);
    assert_eq!(subs[0].current_period_end, at + 30 * MS_PER_DAY);
    assert_eq!(subs[0].next_charge_due, at + 30 * MS_PER_DAY);
    assert_eq!(subs[0].last_payment_reference.as_deref(), Some("R1"));
    let notice = payment_success_notice(&payments[0], at);
    assert_eq!(notice.kind, "payment_success");
    assert_eq!(notice.user_id, "u1");
    assert_eq!(notice.message, "Payment reçu — abonnement actif");
    assert_eq!(notice.created_at, at);
    let before_sub = format!("{:?}", subs[0]);
    let before_pay = format!("{:?}", payments[0]);
    let r2 = receive_webhook(&gw, TAG, BODY.as_bytes(), &mut payments, &mut subs, &plans, &e, at + 5000);
    assert_eq!(r2, Ok(WebhookOutcome::AlreadySettled));
    assert_eq!(format!("{:?}", subs[0]), before_sub);
    assert_eq!(format!("{:?}", payments[0]), before_pay);
}

#[test]
fn collected_payment_ignores_later_failure() {
    let mut s = trial(NOW);
    let later = s.next_charge_due;
    let p = charge_once(&mut s, "p1", later, Ok(reply("R1", "PENDING")));
    let mut payments = vec![p];
    let mut subs = vec![s];
    let plans = get_plans();
    reconcile(&mut payments, &mut subs, &plans, &event("R1", "SUCCESS"), later).unwrap();
    let r = reconcile(&mut payments, &mut subs, &plans, &event("R1", "FAILED"), later + 1);
    assert_eq!(r, Ok(WebhookOutcome::AlreadySettled));
    assert!(matches!(payments[0].status, PaymentStatus::Success));
    assert_eq!(subs[0].status, SubscriptionStatus::Active);
    assert_eq!(payments[0].webhook_log.len(), 1);
}

#[test]
fn webhook_orphan_bad_signature_and_other_status() {
    let mut s = trial(NOW);
    let later = s.next_charge_due;
    let p = charge_once(&mut s, "p1", later, Ok(reply("R1", "PENDING")));
    let mut payments = vec![p];
    let mut subs = vec![s];
    let plans = get_plans();
    let gw = NwaPay::new(String::new(), String::new(), String::new(), SECRET.to_string());
    let r = receive_webhook(&gw, "00", BODY.as_bytes(), &mut payments, &mut subs, &plans, &event("R1", "SUCCESS"), later);
    assert_eq!(r, Err(WebhookError::BadSignature));
    assert!(matches!(payments[0].status, PaymentStatus::Pending));
    let r = reconcile(&mut payments, &mut subs, &plans, &event("R9", "SUCCESS"), later);
    assert_eq!(r, Ok(WebhookOutcome::Orphan));
    let r = reconcile(&mut payments, &mut subs, &plans, &event("R1", "PROCESSING"), later);
    assert_eq!(r, Ok(WebhookOutcome::Recorded { subscription_changed: false, notify_user: false }));
    assert!(matches!(&payments[0].status, PaymentStatus::Other(x) if x == "PROCESSING"));
    assert_eq!(subs[0].status, SubscriptionStatus::AwaitingPayment);
}

#[test]
fn success_with_unknown_subscription_is_plan_error() {
    let mut s = trial(NOW);
    let later = s.next_charge_due;
    let p = charge_once(&mut s, "p1", later, Ok(reply("R1", "PENDING")));
    let mut payments = vec![p];
    let mut subs = vec![s];
    let plans = get_plans();
    let e = WebhookEvent::from_fields(Some("R1".to_string()), Some("SUCCESS".to_string()), None, String::new());
    assert_eq!(e.subscription_id, "");
    assert_eq!(reconcile(&mut payments, &mut subs, &plans, &e, later), Err(WebhookError::PlanNotFound));
    assert!(matches!(payments[0].status, PaymentStatus::Success));
    assert_eq!(subs[0].status, SubscriptionStatus::AwaitingPayment);
}

#[test]
fn webhook_event_defaults() {
    let e = WebhookEvent::from_fields(None, None, None, "{}".to_string());
    assert_eq!(e.reference, "");
    assert_eq!(e.status, "PENDING");
    assert_eq!(e.subscription_id, "");
    let r = RequestToPayRes::from_fields(None, None);
    assert_eq!(r.reference, "");
    assert_eq!(r.status, "PENDING");
}

#[test]
fn scenario_d_five_failures_then_canceled() {
    let mut s = trial(NOW);
    let plans = get_plans();
    let mut payments: Vec<Payment> = Vec::new();
    let mut now = s.next_charge_due;
    // first cycle, then four more cycles whose charges each fail
    for cycle in 0..5 {
        let reference = format!("R{}", cycle);
        let p = charge_once(&mut s, &format!("p{}", cycle), now, Ok(reply(&reference, "PENDING")));
        payments.push(p);
        let mut subs = vec![s.clone()];
        if cycle < 4 {
            let r = reconcile(&mut payments, &mut subs, &plans, &event(&reference, "FAILED"), now + 10);
            assert_eq!(r, Ok(WebhookOutcome::Recorded { subscription_changed: true, notify_user: false }));
            assert_eq!(subs[0].status, SubscriptionStatus::PastDue);
        }
        s = subs.pop().unwrap();
        now += MS_PER_DAY;
    }
    assert_eq!(s.attempt_count, 5);
    assert_eq!(plan_charge(&s, now, &AvailabilityReply::Failed), ChargeStep::Skip);
    let mut subs = vec![s];
    assert_eq!(termination_pass(&mut subs, now), 1);
    assert_eq!(subs[0].status, SubscriptionStatus::Canceled);
    assert_eq!(subs[0].canceled_at, Some(now));
    assert_eq!(subs[0].cancellation_reason.as_deref(), Some("Failed to collect payment after 5 attempts"));
    assert_eq!(CANCELLATION_REASON, "Failed to collect payment after 5 attempts");
    assert_eq!(subs[0].attempt_count, 5);
    // a canceled subscription takes no further event
    let frozen = format!("{:?}", subs[0]);
    assert!(subs[0].apply(LifecycleEvent::ChargeSubmitted, now).is_err());
    assert!(subs[0].apply(LifecycleEvent::PaymentFailed, now).is_err());
    assert_eq!(termination_pass(&mut subs, now + 1), 0);
    assert_eq!(format!("{:?}", subs[0]), frozen);
}

#[test]
fn termination_pass_counts_only_due() {
    let mut a = trial(NOW);
    a.attempt_count = 5;
    let mut b = trial(NOW);
    b.attempt_count = 4;
    let mut c = trial(NOW);
    c.attempt_count = 5;
    c.next_charge_due = NOW + 100 * MS_PER_DAY;
    let mut subs = vec![a, b, c];
    let at = NOW + 8 * MS_PER_DAY;
    assert_eq!(termination_pass(&mut subs, at), 1);
    assert_eq!(subs[0].status, SubscriptionStatus::Canceled);
    assert_eq!(subs[1].status, SubscriptionStatus::Trial);
    assert_eq!(subs[2].status, SubscriptionStatus::Trial);
}

#[test]
fn scenario_e_failed_health_check_fails_open() {
    let s = trial(NOW);
    let due = s.next_charge_due;
    assert!(check_availability(&AvailabilityReply::Failed));
    assert_eq!(plan_charge(&s, due, &AvailabilityReply::Failed), ChargeStep::Charge);
    assert!(check_availability(&AvailabilityReply::Reported(Some("online".to_string()))));
    assert!(!check_availability(&AvailabilityReply::Reported(Some("offline".to_string()))));
    assert!(!check_availability(&AvailabilityReply::Reported(None)));
    let down = AvailabilityReply::Reported(Some("offline".to_string()));
    assert_eq!(plan_charge(&s, due, &down), ChargeStep::Unavailable);
}

#[test]
fn sweep_skips_non_positive_amount() {
    let mut s = trial(NOW);
    s.amount = 0;
    let due = s.next_charge_due;
    assert_eq!(plan_charge(&s, due, &AvailabilityReply::Failed), ChargeStep::Skip);
    assert!(charge_candidates(&vec![s], due).is_empty());
}

#[test]
fn charge_now_errors() {
    let s = trial(NOW);
    let ok = AvailabilityReply::Failed;
    let body = ChargeBody { subscription_id: String::new() };
    assert_eq!(check_charge_now(&body.subscription_id, Some(&s), &ok), Err(ChargeNowError::InvalidBody));
    assert_eq!(check_charge_now("s1", None, &ok), Err(ChargeNowError::NotFound));
    let down = AvailabilityReply::Reported(Some("offline".to_string()));
    assert_eq!(check_charge_now("s1", Some(&s), &down), Err(ChargeNowError::NetworkUnavailable));
    let mut zero = s.clone();
    zero.amount = 0;
    assert_eq!(check_charge_now("s1", Some(&zero), &ok), Err(ChargeNowError::InvalidAmount));
    let mut used = s.clone();
    used.attempt_count = 5;
    assert_eq!(check_charge_now("s1", Some(&used), &ok), Err(ChargeNowError::NotChargeable));
    assert_eq!(check_charge_now("s1", Some(&s), &ok), Ok(()));
}

#[test]
fn access_gate() {
    let s = trial(NOW);
    assert!(subscription_gate(Some(&s), NOW));
    assert!(subscription_gate(Some(&s), s.current_period_end));
    assert!(!subscription_gate(Some(&s), s.current_period_end + 1));
    let mut active = s.clone();
    active.status = SubscriptionStatus::Active;
    assert!(subscription_gate(Some(&active), s.current_period_end + 1));
    assert!(!subscription_gate(None, NOW));
}

#[test]
fn status_names_round_trip() {
    for st in [
        SubscriptionStatus::Trial,
        SubscriptionStatus::Active,
        SubscriptionStatus::AwaitingPayment,
        SubscriptionStatus::PastDue,
        SubscriptionStatus::Canceled,
    ] {
        assert_eq!(SubscriptionStatus::from_name(st.name()), Some(st));
    }
    assert_eq!(SubscriptionStatus::from_name("active"), None);
    assert!(matches!(PaymentStatus::from_name("TIMEOUT"), PaymentStatus::Timeout));
    assert!(matches!(PaymentStatus::from_name("GATEWAY_FAILED"), PaymentStatus::GatewayFailed));
}

#[test]
fn webhook_signature_checks() {
    let gw = NwaPay::new(String::new(), String::new(), String::new(), SECRET.to_string());
    assert!(gw.verify_webhook_signature(TAG, BODY.as_bytes()));
    assert!(gw.verify_webhook_signature(&TAG.to_uppercase(), BODY.as_bytes()));
    assert!(!gw.verify_webhook_signature(&TAG[..62], BODY.as_bytes()));
    assert!(!gw.verify_webhook_signature(&TAG[..63], BODY.as_bytes()));
    let mut wrong = TAG.to_string();
    wrong.replace_range(0..1, "6");
    assert!(!gw.verify_webhook_signature(&wrong, BODY.as_bytes()));
    assert!(!gw.verify_webhook_signature(&TAG.replace('5', "g"), BODY.as_bytes()));
    assert!(!gw.verify_webhook_signature("", BODY.as_bytes()));
    assert!(!gw.verify_webhook_signature(TAG, b"what do ya want for nothing!"));
    let other = NwaPay::new(String::new(), String::new(), String::new(), "jefe".to_string());
    assert!(!other.verify_webhook_signature(TAG, BODY.as_bytes()));
}

#[test]
fn credential_cache_margin() {
    let mut c = CredentialCache::new();
    assert!(matches!(c.next_step(NOW), CredentialStep::Exchange));
    let t = c.store("tok".to_string(), Some(3600), NOW);
    assert_eq!(t, "tok");
    assert_eq!(c.token.as_ref().unwrap().expires_at, NOW + 3_600_000);
    assert!(matches!(c.next_step(NOW), CredentialStep::Use(ref s) if s == "tok"));
    assert!(matches!(c.next_step(NOW + 3_540_000 - 1), CredentialStep::Use(_)));
    assert!(matches!(c.next_step(NOW + 3_540_000), CredentialStep::Exchange));
    c.store("tok2".to_string(), None, NOW);
    assert_eq!(c.token.as_ref().unwrap().expires_at, NOW + 3_000_000);
    c.store("tok3".to_string(), Some(u64::MAX), NOW);
    assert_eq!(c.token.as_ref().unwrap().expires_at, i64::MAX);
}

#[test]
fn retry_policy_schedule() {
    let p = RetryPolicy::standard();
    assert_eq!(p.delays_secs, vec![0, 2, 5, 10]);
    assert_eq!(p.max_attempts(), 4);
    assert_eq!(p.first_delay(), 0);
    assert!(matches!(p.after_attempt::<u8>(0, Err("e".to_string())), RetryDecision::RetryAfter(2)));
    assert!(matches!(p.after_attempt::<u8>(1, Err("e".to_string())), RetryDecision::RetryAfter(5)));
    assert!(matches!(p.after_attempt::<u8>(2, Err("e".to_string())), RetryDecision::RetryAfter(10)));
    assert!(matches!(p.after_attempt::<u8>(3, Err("last".to_string())), RetryDecision::GiveUp(ref e) if e == "last"));
    assert!(matches!(p.after_attempt(2, Ok(7u8)), RetryDecision::Finish(7)));
}

#[test]
fn signup_starts_trial() {
    let plans = get_plans();
    let mut b = SignupBody {
        name: "Ada".to_string(),
        level: "200".to_string(),
        matricule: "M1".to_string(),
        faculty: "Sci".to_string(),
        department: "CS".to_string(),
        password: "pw".to_string(),
        phone: Some("670000000".to_string()),
        network: None,
    };
    let s = signup_subscription(&b, "u9".to_string(), "s9".to_string(), &plans, NOW).unwrap();
    assert_eq!(s.status, SubscriptionStatus::Trial);
    assert_eq!(s.user_id, "u9");
    assert_eq!(s.id, "s9");
    assert_eq!(s.phone_reference, "670000000");
    assert_eq!(s.payment_channel, "");
    assert_eq!(s.next_charge_due, NOW + 7 * MS_PER_DAY);
    b.password = String::new();
    assert_eq!(
        signup_subscription(&b, "u9".to_string(), "s9".to_string(), &plans, NOW).unwrap_err(),
        SignupError::InvalidBody
    );
    b.password = "pw".to_string();
    assert_eq!(
        signup_subscription(&b, "u9".to_string(), "s9".to_string(), &Vec::new(), NOW).unwrap_err(),
        SignupError::PlanMissing
    );
}
