use vstd::prelude::*;
use crate::clock::valid_time;
use crate::gateway::{signature_valid, NwaPay};
use crate::payment::{settled, Payment};
use crate::plan::{catalog_wf, find_plan, plan_pos, SubscriptionPlan};
use crate::subscription::{lifecycle_step, step_or_stay, LifecycleEvent, Subscription};
use crate::text::same_text;
use vstd::utf8::encode_utf8;

verus! {

/// A charge outcome reported by the gateway, as read from the webhook body.
#[derive(Clone, Debug)]
pub struct WebhookEvent {
    /// The gateway's reference of the charge.
    pub reference: String,
    /// The reported status name.
    pub status: String,
    /// The subscription named in the charge's metadata.
    pub subscription_id: String,
    /// The body as received.
    pub raw_payload: String,
}

impl WebhookEvent {
    /// The event from the fields found in the body: a missing reference or
    /// subscription id reads as empty, a missing status as "PENDING".
    pub fn from_fields(
        reference: Option<String>,
        status: Option<String>,
        subscription_id: Option<String>,
        raw_payload: String,
    ) -> (r: WebhookEvent)
        ensures
            r.reference@ == (match reference {
                Some(s) => s@,
                None => Seq::empty(),
            }),
            r.status@ == (match status {
                Some(s) => s@,
                None => "PENDING"@,
            }),
            r.subscription_id@ == (match subscription_id {
                Some(s) => s@,
                None => Seq::empty(),
            }),
            r.raw_payload == raw_payload,
    {
        WebhookEvent {
            reference: match reference {
                Some(s) => s,
                None => String::new(),
            },
            status: match status {
                Some(s) => s,
                None => String::from_str("PENDING"),
            },
            subscription_id: match subscription_id {
                Some(s) => s,
                None => String::new(),
            },
            raw_payload,
        }
    }
}

/// How a webhook delivery was handled.
#[derive(Clone, Copy, Debug, PartialEq, Eq, Structural)]
pub enum WebhookOutcome {
    /// No charge of this system carries the reference: nothing was done.
    Orphan,
    /// The charge was already collected: nothing was applied again.
    AlreadySettled,
    /// The charge was settled. `subscription_changed` tells whether its
    /// subscription moved; `notify_user` whether the user is to be told of a
    /// collected payment.
    Recorded { subscription_changed: bool, notify_user: bool },
}

/// Why a webhook delivery was refused.
#[derive(Clone, Copy, Debug, PartialEq, Eq, Structural)]
pub enum WebhookError {
    /// The signature is not the body's tag under the shared secret.
    BadSignature,
    /// A collected charge names a subscription, or a plan, that is unknown.
    PlanNotFound,
}

/// `i` is the first position in `ps` of the charge with gateway reference `r`.
pub open spec fn first_payment_at(ps: Seq<Payment>, r: Seq<char>, i: int) -> bool {
    &&& 0 <= i < ps.len()
    &&& ps[i].gateway_reference matches Some(g) && g@ == r
    &&& forall|j: int|
        0 <= j < i ==> !(#[trigger] ps[j].gateway_reference matches Some(g) && g@ == r)
}

/// The first position in `ps` of the charge with gateway reference `r`.
pub open spec fn payment_pos(ps: Seq<Payment>, r: Seq<char>) -> Option<int> {
    if exists|i: int| first_payment_at(ps, r, i) {
        Some(choose|i: int| first_payment_at(ps, r, i))
    } else {
        None
    }
}

/// `i` is the first position in `subs` of the subscription with id `id`.
pub open spec fn first_subscription_at(subs: Seq<Subscription>, id: Seq<char>, i: int) -> bool {
    &&& 0 <= i < subs.len()
    &&& subs[i].id@ == id
    &&& forall|j: int| 0 <= j < i ==> subs[j].id@ != id
}

/// The first position in `subs` of the subscription with id `id`.
pub open spec fn subscription_pos(subs: Seq<Subscription>, id: Seq<char>) -> Option<int> {
    if exists|i: int| first_subscription_at(subs, id, i) {
        Some(choose|i: int| first_subscription_at(subs, id, i))
    } else {
        None
    }
}

/// Index of the charge with the given gateway reference.
pub fn find_payment(payments: &Vec<Payment>, reference: &str) -> (r: Option<usize>)
    ensures
        match r {
            Some(i) => payment_pos(payments@, reference@) == Some(i as int),
            None => payment_pos(payments@, reference@) is None,
        },
{
    let mut i: usize = 0;
    while i < payments.len()
        invariant
            i <= payments@.len(),
            forall|j: int|
                0 <= j < i ==> !(#[trigger] payments@[j].gateway_reference matches Some(g) && g@
                    == reference@),
        decreases payments@.len() - i,
    {
        let hit = match &payments[i].gateway_reference {
            Some(g) => same_text(g.as_str(), reference),
            None => false,
        };
        if hit {
            assert(first_payment_at(payments@, reference@, i as int));
            let ghost k = choose|k: int| first_payment_at(payments@, reference@, k);
            assert(k == i);
            return Some(i);
        }
        i = i + 1;
    }
    None
}

/// Index of the subscription with the given id.
pub fn find_subscription(subs: &Vec<Subscription>, id: &str) -> (r: Option<usize>)
    ensures
        match r {
            Some(i) => subscription_pos(subs@, id@) == Some(i as int),
            None => subscription_pos(subs@, id@) is None,
        },
{
    let mut i: usize = 0;
    while i < subs.len()
        invariant
            i <= subs@.len(),
            forall|j: int| 0 <= j < i ==> subs@[j].id@ != id@,
        decreases subs@.len() - i,
    {
        if same_text(subs[i].id.as_str(), id) {
            assert(first_subscription_at(subs@, id@, i as int));
            let ghost k = choose|k: int| first_subscription_at(subs@, id@, k);
            assert(k == i);
            return Some(i);
        }
        i = i + 1;
    }
    None
}

/// The event that a reported status name brings to the charged subscription,
/// if any.
pub open spec fn outcome_event(status: Seq<char>, reference: String, interval_days: i64) -> Option<
    LifecycleEvent,
> {
    if status == "SUCCESS"@ {
        Some(LifecycleEvent::PaymentSucceeded { reference, interval_days })
    } else if status == "FAILED"@ || status == "TIMEOUT"@ {
        Some(LifecycleEvent::PaymentFailed)
    } else {
        None
    }
}

/// What reconciling `e` at `now` does to the subscriptions once its charge
/// was settled: the final subscriptions and the result.
pub open spec fn subscription_effect(
    subs: Seq<Subscription>,
    plans: Seq<SubscriptionPlan>,
    e: WebhookEvent,
    now: i64,
    subs2: Seq<Subscription>,
    r: Result<WebhookOutcome, WebhookError>,
) -> bool {
    let k = subscription_pos(subs, e.subscription_id@);
    if e.status@ == "SUCCESS"@ {
        match k {
            None => r == Err::<WebhookOutcome, WebhookError>(WebhookError::PlanNotFound) && subs2
                == subs,
            Some(k) => match plan_pos(plans, subs[k].plan_id@) {
                None => r == Err::<WebhookOutcome, WebhookError>(WebhookError::PlanNotFound)
                    && subs2 == subs,
                Some(pi) => {
                    let ev = LifecycleEvent::PaymentSucceeded {
                        reference: e.reference,
                        interval_days: plans[pi].interval_days,
                    };
                    &&& subs2 == subs.update(k, step_or_stay(subs[k], ev, now))
                    &&& r == Ok::<WebhookOutcome, WebhookError>(
                        WebhookOutcome::Recorded {
                            subscription_changed: lifecycle_step(subs[k], ev, now) is Some,
                            notify_user: true,
                        },
                    )
                },
            },
        }
    } else if e.status@ == "FAILED"@ || e.status@ == "TIMEOUT"@ {
        match k {
            None => r == Ok::<WebhookOutcome, WebhookError>(
                WebhookOutcome::Recorded { subscription_changed: false, notify_user: false },
            ) && subs2 == subs,
            Some(k) => {
                &&& subs2 == subs.update(
                    k,
                    step_or_stay(subs[k], LifecycleEvent::PaymentFailed, now),
                )
                &&& r == Ok::<WebhookOutcome, WebhookError>(
                    WebhookOutcome::Recorded {
                        subscription_changed: lifecycle_step(
                            subs[k],
                            LifecycleEvent::PaymentFailed,
                            now,
                        ) is Some,
                        notify_user: false,
                    },
                )
            },
        }
    } else {
        r == Ok::<WebhookOutcome, WebhookError>(
            WebhookOutcome::Recorded { subscription_changed: false, notify_user: false },
        ) && subs2 == subs
    }
}

/// Reconciling the verified delivery `e` at `now` takes the ledger `ps` and
/// the subscriptions `subs` to `ps2` and `subs2` with result `r`.
pub open spec fn reconciled(
    ps: Seq<Payment>,
    subs: Seq<Subscription>,
    plans: Seq<SubscriptionPlan>,
    e: WebhookEvent,
    now: i64,
    ps2: Seq<Payment>,
    subs2: Seq<Subscription>,
    r: Result<WebhookOutcome, WebhookError>,
) -> bool {
    match payment_pos(ps, e.reference@) {
        None => r == Ok::<WebhookOutcome, WebhookError>(WebhookOutcome::Orphan) && ps2 == ps
            && subs2 == subs,
        Some(i) => if ps[i].status is Success {
            r == Ok::<WebhookOutcome, WebhookError>(WebhookOutcome::AlreadySettled) && ps2 == ps
                && subs2 == subs
        } else {
            &&& ps2.len() == ps.len()
            &&& forall|j: int| 0 <= j < ps.len() && j != i ==> ps2[j] == ps[j]
            &&& settled(ps[i], ps2[i], e.status@, e.raw_payload, now)
            &&& subscription_effect(subs, plans, e, now, subs2, r)
        },
    }
}

/// Applies a verified charge outcome: the charge is looked up by its gateway
/// reference (none: an orphan, left alone); a collected charge is final (the
/// delivery is acknowledged and nothing is applied again); any other charge
/// logs the delivery and takes the reported status, and the subscription
/// named in the metadata then moves as the status says.
pub fn reconcile(
    payments: &mut Vec<Payment>,
    subs: &mut Vec<Subscription>,
    plans: &Vec<SubscriptionPlan>,
    event: &WebhookEvent,
    now: i64,
) -> (r: Result<WebhookOutcome, WebhookError>)
    requires
        valid_time(now),
        catalog_wf(plans@),
    ensures
        reconciled(old(payments)@, old(subs)@, plans@, *event, now, final(payments)@, final(subs)@, r),
{
    let i = match find_payment(payments, event.reference.as_str()) {
        None => return Ok(WebhookOutcome::Orphan),
        Some(i) => i,
    };
    let ghost ps0 = payments@;
    let mut p = payments.remove(i);
    let applied = p.settle(event.status.as_str(), event.raw_payload.clone(), now);
    payments.insert(i, p);
    assert(payments@ =~= ps0.update(i as int, payments@[i as int]));
    if !applied {
        assert(payments@ =~= ps0);
        return Ok(WebhookOutcome::AlreadySettled);
    }
    let is_success = same_text(event.status.as_str(), "SUCCESS");
    let is_failure = same_text(event.status.as_str(), "FAILED") || same_text(
        event.status.as_str(),
        "TIMEOUT",
    );
    if !is_success && !is_failure {
        return Ok(WebhookOutcome::Recorded { subscription_changed: false, notify_user: false });
    }
    let k = match find_subscription(subs, event.subscription_id.as_str()) {
        None => {
            if is_success {
                return Err(WebhookError::PlanNotFound);
            } else {
                return Ok(WebhookOutcome::Recorded { subscription_changed: false, notify_user: false });
            }
        },
        Some(k) => k,
    };
    let ghost subs0 = subs@;
    let ev = if is_success {
        match find_plan(plans, subs[k].plan_id.as_str()) {
            None => return Err(WebhookError::PlanNotFound),
            Some(pi) => {
                assert(plans@[pi as int].wf());
                LifecycleEvent::PaymentSucceeded {
                    reference: event.reference.clone(),
                    interval_days: plans[pi].interval_days,
                }
            },
        }
    } else {
        LifecycleEvent::PaymentFailed
    };
    let mut s = subs.remove(k);
    let changed = s.apply(ev, now);
    subs.insert(k, s);
    assert(subs@ =~= subs0.update(k as int, subs@[k as int]));
    Ok(WebhookOutcome::Recorded { subscription_changed: changed.is_ok(), notify_user: is_success })
}

/// Handles one webhook delivery: a delivery whose signature is not authentic
/// is refused with nothing changed; an authentic one is reconciled.
pub fn receive_webhook(
    gateway: &NwaPay,
    signature: &str,
    body: &[u8],
    payments: &mut Vec<Payment>,
    subs: &mut Vec<Subscription>,
    plans: &Vec<SubscriptionPlan>,
    event: &WebhookEvent,
    now: i64,
) -> (r: Result<WebhookOutcome, WebhookError>)
    requires
        valid_time(now),
        catalog_wf(plans@),
    ensures
        !signature_valid(encode_utf8(gateway.hmac_secret@), encode_utf8(signature@), body@) ==> {
            &&& r == Err::<WebhookOutcome, WebhookError>(WebhookError::BadSignature)
            &&& final(payments)@ == old(payments)@
            &&& final(subs)@ == old(subs)@
        },
        signature_valid(encode_utf8(gateway.hmac_secret@), encode_utf8(signature@), body@)
            ==> reconciled(
            old(payments)@,
            old(subs)@,
            plans@,
            *event,
            now,
            final(payments)@,
            final(subs)@,
            r,
        ),
{
    if !gateway.verify_webhook_signature(signature, body) {
        return Err(WebhookError::BadSignature);
    }
    reconcile(payments, subs, plans, event, now)
}

/// A message to a user, kept for display.
#[derive(Clone, Debug)]
pub struct UserNotice {
    pub kind: String,
    pub user_id: String,
    pub message: String,
    pub created_at: i64,
}

/// The notice sent to the payer of `payment` when it is collected at `now`.
pub fn payment_success_notice(payment: &Payment, now: i64) -> (r: UserNotice)
    ensures
        r.kind@ == "payment_success"@,
        r.user_id == payment.user_id,
        r.message@ == "Payment reçu — abonnement actif"@,
        r.created_at == now,
{
    UserNotice {
        kind: String::from_str("payment_success"),
        user_id: payment.user_id.clone(),
        message: String::from_str("Payment reçu — abonnement actif"),
        created_at: now,
    }
}

} // verus!
