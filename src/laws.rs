use vstd::prelude::*;
use crate::payment::Payment;
use crate::plan::SubscriptionPlan;
use crate::scheduler::canceled_from;
use crate::subscription::{
    lifecycle_step, step_or_stay, termination_due, LifecycleEvent, Subscription,
    SubscriptionStatus,
};
use crate::webhook::{
    first_payment_at, payment_pos, reconciled, WebhookError, WebhookEvent, WebhookOutcome,
};

verus! {

/// No lifecycle event lowers a subscription's attempt count, and a canceled
/// subscription is never changed by any event.
pub proof fn lemma_lifecycle_monotone(s: Subscription, e: LifecycleEvent, now: i64)
    ensures
        step_or_stay(s, e, now).attempt_count >= s.attempt_count,
        s.status == SubscriptionStatus::Canceled ==> step_or_stay(s, e, now) == s,
        s.status == SubscriptionStatus::Canceled ==> lifecycle_step(s, e, now) is None,
{
}

/// Reconciling a webhook lowers no subscription's attempt count and changes
/// no canceled subscription.
pub proof fn lemma_reconcile_keeps_subscriptions_monotone(
    ps: Seq<Payment>,
    subs: Seq<Subscription>,
    plans: Seq<SubscriptionPlan>,
    e: WebhookEvent,
    now: i64,
    ps2: Seq<Payment>,
    subs2: Seq<Subscription>,
    r: Result<WebhookOutcome, WebhookError>,
)
    requires
        reconciled(ps, subs, plans, e, now, ps2, subs2, r),
    ensures
        subs2.len() == subs.len(),
        forall|i: int| 0 <= i < subs.len() ==> #[trigger] subs2[i].attempt_count >= subs[i].attempt_count,
        forall|i: int|
            0 <= i < subs.len() && subs[i].status == SubscriptionStatus::Canceled ==> #[trigger] subs2[i]
                == subs[i],
{
    assert forall|i: int| 0 <= i < subs.len() implies #[trigger] subs2[i].attempt_count
        >= subs[i].attempt_count && (subs[i].status == SubscriptionStatus::Canceled ==> subs2[i]
        == subs[i]) by {
        if subs2 != subs {
            let k = crate::webhook::subscription_pos(subs, e.subscription_id@)->0;
            if i == k {
                if e.status@ == "SUCCESS"@ {
                    let pi = crate::plan::plan_pos(plans, subs[k].plan_id@)->0;
                    lemma_lifecycle_monotone(
                        subs[k],
                        LifecycleEvent::PaymentSucceeded {
                            reference: e.reference,
                            interval_days: plans[pi].interval_days,
                        },
                        now,
                    );
                } else {
                    lemma_lifecycle_monotone(subs[k], LifecycleEvent::PaymentFailed, now);
                }
            }
        }
    }
}

/// The termination pass lowers no attempt count and changes no subscription
/// that was already canceled.
pub proof fn lemma_termination_keeps_subscriptions_monotone(
    subs: Seq<Subscription>,
    now: i64,
    subs2: Seq<Subscription>,
)
    requires
        subs2.len() == subs.len(),
        forall|i: int|
            0 <= i < subs.len() ==> if termination_due(#[trigger] subs[i], now) {
                canceled_from(subs[i], subs2[i], now)
            } else {
                subs2[i] == subs[i]
            },
    ensures
        forall|i: int| 0 <= i < subs.len() ==> #[trigger] subs2[i].attempt_count >= subs[i].attempt_count,
        forall|i: int|
            0 <= i < subs.len() && subs[i].status == SubscriptionStatus::Canceled ==> #[trigger] subs2[i]
                == subs[i],
{
    assert forall|i: int| 0 <= i < subs.len() implies #[trigger] subs2[i].attempt_count
        >= subs[i].attempt_count by {
        if termination_due(subs[i], now) {
            assert(canceled_from(subs[i], subs2[i], now));
        }
    }
}

/// Once a charge is collected, no later delivery for its reference changes
/// the ledger or any subscription: it is only acknowledged.
pub proof fn lemma_collected_charge_is_final(
    ps: Seq<Payment>,
    subs: Seq<Subscription>,
    plans: Seq<SubscriptionPlan>,
    e: WebhookEvent,
    now: i64,
    ps2: Seq<Payment>,
    subs2: Seq<Subscription>,
    r: Result<WebhookOutcome, WebhookError>,
)
    requires
        reconciled(ps, subs, plans, e, now, ps2, subs2, r),
        payment_pos(ps, e.reference@) matches Some(i) && ps[i].status is Success,
    ensures
        ps2 == ps,
        subs2 == subs,
        r == Ok::<WebhookOutcome, WebhookError>(WebhookOutcome::AlreadySettled),
{
}

/// Delivering the same successful outcome twice has the effect of delivering
/// it once: the second delivery changes neither the ledger nor any
/// subscription.
pub proof fn lemma_duplicate_success_is_noop(
    ps: Seq<Payment>,
    subs: Seq<Subscription>,
    plans: Seq<SubscriptionPlan>,
    e: WebhookEvent,
    now: i64,
    ps2: Seq<Payment>,
    subs2: Seq<Subscription>,
    r: Result<WebhookOutcome, WebhookError>,
    later: i64,
    ps3: Seq<Payment>,
    subs3: Seq<Subscription>,
    r2: Result<WebhookOutcome, WebhookError>,
)
    requires
        e.status@ == "SUCCESS"@,
        reconciled(ps, subs, plans, e, now, ps2, subs2, r),
        reconciled(ps2, subs2, plans, e, later, ps3, subs3, r2),
    ensures
        ps3 == ps2,
        subs3 == subs2,
{
    match payment_pos(ps, e.reference@) {
        None => {},
        Some(i) => {
            if !(ps[i].status is Success) {
                reveal_strlit("SUCCESS");
                reveal_strlit("PENDING");
                reveal_strlit("FAILED");
                reveal_strlit("TIMEOUT");
                reveal_strlit("GATEWAY_FAILED");
                assert(first_payment_at(ps, e.reference@, i));
                assert(crate::payment::settled(ps[i], ps2[i], e.status@, e.raw_payload, now));
                assert(crate::payment::status_named(ps2[i].status, "SUCCESS"@));
                assert("SUCCESS"@ != "PENDING"@ && "SUCCESS"@ != "FAILED"@ && "SUCCESS"@
                    != "TIMEOUT"@ && "SUCCESS"@ != "GATEWAY_FAILED"@) by {
                    assert("SUCCESS"@[0] != "PENDING"@[0]);
                    assert("SUCCESS"@[0] != "FAILED"@[0]);
                    assert("SUCCESS"@[0] != "TIMEOUT"@[0]);
                    assert("SUCCESS"@[0] != "GATEWAY_FAILED"@[0]);
                }
                assert(ps2[i].status is Success);
                assert forall|j: int| 0 <= j < i implies !(#[trigger] ps2[j].gateway_reference matches Some(
                    g,
                ) && g@ == e.reference@) by {
                    assert(ps2[j] == ps[j]);
                }
                assert(first_payment_at(ps2, e.reference@, i));
                let k = choose|k: int| first_payment_at(ps2, e.reference@, k);
                assert(k == i);
                lemma_collected_charge_is_final(ps2, subs2, plans, e, later, ps3, subs3, r2);
            }
        },
    }
}

} // verus!
