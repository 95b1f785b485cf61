use vstd::prelude::*;
use crate::clock::valid_time;
use crate::gateway::{channel_usable, check_availability, AvailabilityReply, RequestToPayRes};
use crate::payment::{status_named, Payment};
use crate::subscription::{
    charge_due, chargeable_status, step_or_stay, LifecycleEvent, Subscription, SubscriptionStatus,
    MAX_ATTEMPTS,
};

verus! {

/// The reason recorded on a subscription that the termination pass cancels.
pub const CANCELLATION_REASON: &'static str = "Failed to collect payment after 5 attempts";

/// The charge pass charges the subscription at `now`: it is due, and its
/// amount is positive.
pub open spec fn charge_selected(s: Subscription, now: i64) -> bool {
    charge_due(s, now) && s.amount > 0
}

/// Positions, in order, of the subscriptions that the charge pass charges at `now`.
pub fn charge_candidates(subs: &Vec<Subscription>, now: i64) -> (r: Vec<usize>)
    ensures
        forall|k: int| 0 <= k < r@.len() ==> (r@[k] as int) < subs@.len() && charge_selected(
            subs@[r@[k] as int],
            now,
        ),
        forall|k: int, l: int| 0 <= k < l < r@.len() ==> r@[k] < r@[l],
        forall|i: int|
            0 <= i < subs@.len() && charge_selected(#[trigger] subs@[i], now) ==> r@.contains(
                i as usize,
            ),
{
    let mut out: Vec<usize> = Vec::new();
    let mut i: usize = 0;
    while i < subs.len()
        invariant
            i <= subs@.len(),
            forall|k: int| 0 <= k < out@.len() ==> (out@[k] as int) < i && charge_selected(
                subs@[out@[k] as int],
                now,
            ),
            forall|k: int, l: int| 0 <= k < l < out@.len() ==> out@[k] < out@[l],
            forall|j: int|
                0 <= j < i && charge_selected(#[trigger] subs@[j], now) ==> out@.contains(
                    j as usize,
                ),
        decreases subs@.len() - i,
    {
        if subs[i].is_charge_due(now) && subs[i].amount > 0 {
            let ghost before = out@;
            out.push(i);
            assert forall|j: int|
                0 <= j <= i && charge_selected(#[trigger] subs@[j], now) implies out@.contains(
                j as usize,
            ) by {
                if j < i {
                    let k = choose|k: int| 0 <= k < before.len() && before[k] == j as usize;
                    assert(out@[k] == j as usize);
                } else {
                    assert(out@[out@.len() - 1] == i);
                }
            }
        }
        i = i + 1;
    }
    out
}

/// What the charge pass does with one subscription before calling the gateway.
#[derive(Clone, Copy, Debug, PartialEq, Eq, Structural)]
pub enum ChargeStep {
    /// Not due, or nothing to charge: leave it.
    Skip,
    /// The channel's health check reported it down: leave it for the next run.
    Unavailable,
    /// Open a pending charge and submit it.
    Charge,
}

/// The charge pass's decision for one subscription at `now`, given what the
/// health check said of its channel.
pub fn plan_charge(sub: &Subscription, now: i64, availability: &AvailabilityReply) -> (r:
    ChargeStep)
    ensures
        !charge_selected(*sub, now) ==> r == ChargeStep::Skip,
        charge_selected(*sub, now) && !channel_usable(*availability) ==> r
            == ChargeStep::Unavailable,
        charge_selected(*sub, now) && channel_usable(*availability) ==> r == ChargeStep::Charge,
{
    if !(sub.is_charge_due(now) && sub.amount > 0) {
        ChargeStep::Skip
    } else if !check_availability(availability) {
        ChargeStep::Unavailable
    } else {
        ChargeStep::Charge
    }
}

/// Applies the gateway's answer to a submitted charge. On acceptance the
/// charge takes the gateway's reference and status and the subscription
/// awaits payment with one more attempt counted; on failure the charge is
/// marked as not submitted and the subscription is left as it was.
pub fn finish_charge(
    sub: &mut Subscription,
    payment: &mut Payment,
    reply: Result<RequestToPayRes, String>,
) -> (r: bool)
    requires
        old(payment).status is Pending,
    ensures
        r == reply is Ok,
        match reply {
            Ok(rep) => {
                &&& *final(sub) == step_or_stay(*old(sub), LifecycleEvent::ChargeSubmitted, 0)
                &&& final(payment).gateway_reference == Some(rep.reference)
                &&& status_named(final(payment).status, rep.status@)
                &&& final(payment).id == old(payment).id
                &&& final(payment).attempt_number == old(payment).attempt_number
                &&& final(payment).webhook_log == old(payment).webhook_log
            },
            Err(_) => {
                &&& *final(sub) == *old(sub)
                &&& *final(payment) == (Payment {
                    status: crate::payment::PaymentStatus::GatewayFailed,
                    ..*old(payment)
                })
            },
        },
{
    match reply {
        Ok(rep) => {
            let status = rep.status;
            let _ = payment.record_submission(rep.reference, status.as_str());
            let _ = sub.apply(LifecycleEvent::ChargeSubmitted, 0);
            true
        },
        Err(_) => {
            let _ = payment.record_gateway_failure();
            false
        },
    }
}

/// `t` is `s` canceled by the termination pass at `now`.
pub open spec fn canceled_from(s: Subscription, t: Subscription, now: i64) -> bool {
    &&& t.cancellation_reason matches Some(x) && x@ == CANCELLATION_REASON@
    &&& t == Subscription {
        status: SubscriptionStatus::Canceled,
        canceled_at: Some(now),
        cancellation_reason: t.cancellation_reason,
        ..s
    }
}

/// Number of subscriptions in `subs` that the termination pass selects at `now`.
pub open spec fn termination_count(subs: Seq<Subscription>, now: i64) -> nat
    decreases subs.len(),
{
    if subs.len() == 0 {
        0
    } else {
        termination_count(subs.drop_last(), now) + if crate::subscription::termination_due(
            subs.last(),
            now,
        ) {
            1nat
        } else {
            0nat
        }
    }
}

/// Cancels, at `now`, every subscription that is due and has used up its
/// attempts, recording the fixed reason; returns how many were canceled.
pub fn termination_pass(subs: &mut Vec<Subscription>, now: i64) -> (r: usize)
    requires
        valid_time(now),
    ensures
        final(subs)@.len() == old(subs)@.len(),
        forall|i: int|
            0 <= i < old(subs)@.len() ==> if crate::subscription::termination_due(
                #[trigger] old(subs)@[i],
                now,
            ) {
                canceled_from(old(subs)@[i], final(subs)@[i], now)
            } else {
                final(subs)@[i] == old(subs)@[i]
            },
        r == termination_count(old(subs)@, now),
{
    let ghost subs0 = subs@;
    let mut count: usize = 0;
    let mut i: usize = 0;
    while i < subs.len()
        invariant
            subs@.len() == subs0.len(),
            i <= subs@.len(),
            count == termination_count(subs0.subrange(0, i as int), now),
            count <= i,
            valid_time(now),
            forall|j: int|
                0 <= j < i ==> if crate::subscription::termination_due(#[trigger] subs0[j], now) {
                    canceled_from(subs0[j], subs@[j], now)
                } else {
                    subs@[j] == subs0[j]
                },
            forall|j: int| i <= j < subs@.len() ==> subs@[j] == subs0[j],
        decreases subs@.len() - i,
    {
        assert(subs0.subrange(0, i + 1).drop_last() =~= subs0.subrange(0, i as int));
        if subs[i].is_termination_due(now) {
            let ghost before = subs@;
            let mut s = subs.remove(i);
            let reason = String::from_str(CANCELLATION_REASON);
            let _ = s.apply(LifecycleEvent::Terminated { reason }, now);
            subs.insert(i, s);
            assert(subs@ =~= before.update(i as int, subs@[i as int]));
            count = count + 1;
        }
        i = i + 1;
    }
    assert(subs0.subrange(0, subs0.len() as int) =~= subs0);
    count
}

/// Counts reported by one sweep.
#[derive(Clone, Copy, Debug, PartialEq, Eq, Structural)]
pub struct SweepReport {
    pub charges_initiated: usize,
    pub subscriptions_canceled: usize,
}

/// Why an on-demand charge was refused before reaching the gateway.
#[derive(Clone, Copy, Debug, PartialEq, Eq, Structural)]
pub enum ChargeNowError {
    /// No subscription id was given.
    InvalidBody,
    /// No subscription has the id.
    NotFound,
    /// The lifecycle does not allow a charge in the subscription's status,
    /// or its attempts are used up.
    NotChargeable,
    /// The channel's health check reported it down.
    NetworkUnavailable,
    /// The subscription's amount is not positive.
    InvalidAmount,
}

/// The verdict on an on-demand charge of `sub`, found under the id `id`.
pub open spec fn charge_now_verdict(
    id: Seq<char>,
    sub: Option<Subscription>,
    availability: AvailabilityReply,
) -> Result<(), ChargeNowError> {
    if id.len() == 0 {
        Err(ChargeNowError::InvalidBody)
    } else {
        match sub {
            None => Err(ChargeNowError::NotFound),
            Some(s) => if !(chargeable_status(s.status) && s.attempt_count < MAX_ATTEMPTS) {
                Err(ChargeNowError::NotChargeable)
            } else if !channel_usable(availability) {
                Err(ChargeNowError::NetworkUnavailable)
            } else if s.amount <= 0 {
                Err(ChargeNowError::InvalidAmount)
            } else {
                Ok(())
            },
        }
    }
}

/// Checks an on-demand charge of `sub` (the subscription found under the id
/// `subscription_id`, if any) before it is opened and submitted.
pub fn check_charge_now(
    subscription_id: &str,
    sub: Option<&Subscription>,
    availability: &AvailabilityReply,
) -> (r: Result<(), ChargeNowError>)
    ensures
        r == charge_now_verdict(
            subscription_id@,
            match sub {
                Some(s) => Some(*s),
                None => None,
            },
            *availability,
        ),
{
    if subscription_id.unicode_len() == 0 {
        return Err(ChargeNowError::InvalidBody);
    }
    match sub {
        None => Err(ChargeNowError::NotFound),
        Some(s) => {
            let open = s.attempt_count < MAX_ATTEMPTS && (match s.status {
                SubscriptionStatus::Trial | SubscriptionStatus::Active
                | SubscriptionStatus::PastDue => true,
                _ => false,
            });
            if !open {
                Err(ChargeNowError::NotChargeable)
            } else if !check_availability(availability) {
                Err(ChargeNowError::NetworkUnavailable)
            } else if s.amount <= 0 {
                Err(ChargeNowError::InvalidAmount)
            } else {
                Ok(())
            }
        },
    }
}

} // verus!
