use vstd::prelude::*;
use crate::clock::{add_days, add_days_spec, valid_days, valid_time};
use crate::plan::SubscriptionPlan;
use crate::text::same_text;

verus! {

/// Charge attempts after which a due subscription is canceled.
pub const MAX_ATTEMPTS: u32 = 5;

/// Where a subscription stands in its lifecycle.
#[derive(Clone, Copy, Debug, PartialEq, Eq, Structural)]
pub enum SubscriptionStatus {
    Trial,
    Active,
    AwaitingPayment,
    PastDue,
    Canceled,
}

impl SubscriptionStatus {
    /// The stored name of the status.
    pub fn name(&self) -> (r: &'static str)
        ensures
            *self == SubscriptionStatus::Trial ==> r@ == "TRIAL"@,
            *self == SubscriptionStatus::Active ==> r@ == "ACTIVE"@,
            *self == SubscriptionStatus::AwaitingPayment ==> r@ == "AWAITING_PAYMENT"@,
            *self == SubscriptionStatus::PastDue ==> r@ == "PAST_DUE"@,
            *self == SubscriptionStatus::Canceled ==> r@ == "CANCELED"@,
    {
        match self {
            SubscriptionStatus::Trial => "TRIAL",
            SubscriptionStatus::Active => "ACTIVE",
            SubscriptionStatus::AwaitingPayment => "AWAITING_PAYMENT",
            SubscriptionStatus::PastDue => "PAST_DUE",
            SubscriptionStatus::Canceled => "CANCELED",
        }
    }

    /// The status stored under `s`, if `s` names one.
    pub fn from_name(s: &str) -> (r: Option<SubscriptionStatus>)
        ensures
            r == status_of_name(s@),
    {
        if same_text(s, "TRIAL") {
            Some(SubscriptionStatus::Trial)
        } else if same_text(s, "ACTIVE") {
            Some(SubscriptionStatus::Active)
        } else if same_text(s, "AWAITING_PAYMENT") {
            Some(SubscriptionStatus::AwaitingPayment)
        } else if same_text(s, "PAST_DUE") {
            Some(SubscriptionStatus::PastDue)
        } else if same_text(s, "CANCELED") {
            Some(SubscriptionStatus::Canceled)
        } else {
            None
        }
    }
}

/// The status whose stored name is `s`.
pub open spec fn status_of_name(s: Seq<char>) -> Option<SubscriptionStatus> {
    if s == "TRIAL"@ {
        Some(SubscriptionStatus::Trial)
    } else if s == "ACTIVE"@ {
        Some(SubscriptionStatus::Active)
    } else if s == "AWAITING_PAYMENT"@ {
        Some(SubscriptionStatus::AwaitingPayment)
    } else if s == "PAST_DUE"@ {
        Some(SubscriptionStatus::PastDue)
    } else if s == "CANCELED"@ {
        Some(SubscriptionStatus::Canceled)
    } else {
        None
    }
}

/// A customer's subscription to a plan.
#[derive(Clone, Debug)]
pub struct Subscription {
    pub id: String,
    pub user_id: String,
    pub plan_id: String,
    pub amount: i64,
    pub currency_code: String,
    pub payment_channel: String,
    pub phone_reference: String,
    pub status: SubscriptionStatus,
    pub period_start: i64,
    pub current_period_end: i64,
    pub next_charge_due: i64,
    pub last_payment_reference: Option<String>,
    pub attempt_count: u32,
    pub created_at: i64,
    pub canceled_at: Option<i64>,
    pub cancellation_reason: Option<String>,
}

/// What moves a subscription from one status to the next.
#[derive(Clone, Debug)]
pub enum LifecycleEvent {
    /// The sweep, or an operator, submitted a charge to the gateway.
    ChargeSubmitted,
    /// The gateway reported the outstanding charge as collected.
    PaymentSucceeded { reference: String, interval_days: i64 },
    /// The gateway reported the outstanding charge as failed or timed out.
    PaymentFailed,
    /// The termination pass gives up on the subscription.
    Terminated { reason: String },
}

/// A transition that the lifecycle does not allow from the current status.
#[derive(Clone, Copy, Debug, PartialEq, Eq, Structural)]
pub struct TransitionRejected;

/// A status from which the sweep may charge.
pub open spec fn chargeable_status(s: SubscriptionStatus) -> bool {
    s == SubscriptionStatus::Trial || s == SubscriptionStatus::Active || s
        == SubscriptionStatus::PastDue
}

/// The sweep's charge pass selects the subscription at `now`.
pub open spec fn charge_due(s: Subscription, now: i64) -> bool {
    &&& s.next_charge_due <= now
    &&& chargeable_status(s.status)
    &&& s.attempt_count < MAX_ATTEMPTS
}

/// The sweep's termination pass selects the subscription at `now`.
pub open spec fn termination_due(s: Subscription, now: i64) -> bool {
    &&& s.next_charge_due <= now
    &&& s.status != SubscriptionStatus::Canceled
    &&& s.attempt_count >= MAX_ATTEMPTS
}

/// The subscription after `e` at time `now`, or `None` where the lifecycle
/// refuses `e` in the current status.
pub open spec fn lifecycle_step(s: Subscription, e: LifecycleEvent, now: i64) -> Option<
    Subscription,
> {
    match e {
        LifecycleEvent::ChargeSubmitted => {
            if chargeable_status(s.status) && s.attempt_count < MAX_ATTEMPTS {
                Some(
                    Subscription {
                        status: SubscriptionStatus::AwaitingPayment,
                        attempt_count: (s.attempt_count + 1) as u32,
                        ..s
                    },
                )
            } else {
                None
            }
        },
        LifecycleEvent::PaymentSucceeded { reference, interval_days } => {
            if s.status == SubscriptionStatus::AwaitingPayment {
                let end = add_days_spec(now, interval_days) as i64;
                Some(
                    Subscription {
                        status: SubscriptionStatus::Active,
                        current_period_end: end,
                        next_charge_due: end,
                        last_payment_reference: Some(reference),
                        ..s
                    },
                )
            } else {
                None
            }
        },
        LifecycleEvent::PaymentFailed => {
            if s.status == SubscriptionStatus::AwaitingPayment {
                Some(Subscription { status: SubscriptionStatus::PastDue, ..s })
            } else {
                None
            }
        },
        LifecycleEvent::Terminated { reason } => {
            if termination_due(s, now) {
                Some(
                    Subscription {
                        status: SubscriptionStatus::Canceled,
                        canceled_at: Some(now),
                        cancellation_reason: Some(reason),
                        ..s
                    },
                )
            } else {
                None
            }
        },
    }
}

/// The arguments that an event needs to be applied safely.
pub open spec fn event_wf(e: LifecycleEvent) -> bool {
    match e {
        LifecycleEvent::PaymentSucceeded { interval_days, .. } => valid_days(interval_days),
        _ => true,
    }
}

/// The subscription after `e`, or unchanged where the lifecycle refuses it.
pub open spec fn step_or_stay(s: Subscription, e: LifecycleEvent, now: i64) -> Subscription {
    match lifecycle_step(s, e, now) {
        Some(n) => n,
        None => s,
    }
}

impl Subscription {
    /// A new subscription in its trial: access and the first charge both fall
    /// due when the plan's trial ends.
    pub fn start_trial(
        id: String,
        user_id: String,
        plan: &SubscriptionPlan,
        payment_channel: String,
        phone_reference: String,
        now: i64,
    ) -> (r: Subscription)
        requires
            plan.wf(),
            valid_time(now),
        ensures
            r.id == id,
            r.user_id == user_id,
            r.plan_id == plan.id,
            r.amount == plan.amount,
            r.currency_code == plan.currency,
            r.payment_channel == payment_channel,
            r.phone_reference == phone_reference,
            r.status == SubscriptionStatus::Trial,
            r.period_start == now,
            r.current_period_end == add_days_spec(now, plan.trial_days),
            r.next_charge_due == add_days_spec(now, plan.trial_days),
            r.last_payment_reference is None,
            r.attempt_count == 0,
            r.created_at == now,
            r.canceled_at is None,
            r.cancellation_reason is None,
    {
        let end = add_days(now, plan.trial_days);
        Subscription {
            id,
            user_id,
            plan_id: plan.id.clone(),
            amount: plan.amount,
            currency_code: plan.currency.clone(),
            payment_channel,
            phone_reference,
            status: SubscriptionStatus::Trial,
            period_start: now,
            current_period_end: end,
            next_charge_due: end,
            last_payment_reference: None,
            attempt_count: 0,
            created_at: now,
            canceled_at: None,
            cancellation_reason: None,
        }
    }

    /// Whether the charge pass selects this subscription at `now`.
    pub fn is_charge_due(&self, now: i64) -> (r: bool)
        ensures
            r == charge_due(*self, now),
    {
        self.next_charge_due <= now && self.attempt_count < MAX_ATTEMPTS && (match self.status {
            SubscriptionStatus::Trial | SubscriptionStatus::Active
            | SubscriptionStatus::PastDue => true,
            _ => false,
        })
    }

    /// Whether the termination pass selects this subscription at `now`.
    pub fn is_termination_due(&self, now: i64) -> (r: bool)
        ensures
            r == termination_due(*self, now),
    {
        self.next_charge_due <= now && self.attempt_count >= MAX_ATTEMPTS && (match self.status {
            SubscriptionStatus::Canceled => false,
            _ => true,
        })
    }

    /// Applies `e` at time `now` where the lifecycle allows it; elsewhere the
    /// subscription is left as it was and the event is rejected.
    pub fn apply(&mut self, e: LifecycleEvent, now: i64) -> (r: Result<(), TransitionRejected>)
        requires
            valid_time(now),
            event_wf(e),
        ensures
            r is Ok <==> lifecycle_step(*old(self), e, now) is Some,
            *final(self) == step_or_stay(*old(self), e, now),
    {
        match e {
            LifecycleEvent::ChargeSubmitted => {
                if self.attempt_count < MAX_ATTEMPTS && (match self.status {
                    SubscriptionStatus::Trial | SubscriptionStatus::Active
                    | SubscriptionStatus::PastDue => true,
                    _ => false,
                }) {
                    self.status = SubscriptionStatus::AwaitingPayment;
                    self.attempt_count = self.attempt_count + 1;
                    Ok(())
                } else {
                    Err(TransitionRejected)
                }
            },
            LifecycleEvent::PaymentSucceeded { reference, interval_days } => {
                if self.status == SubscriptionStatus::AwaitingPayment {
                    let end = add_days(now, interval_days);
                    self.status = SubscriptionStatus::Active;
                    self.current_period_end = end;
                    self.next_charge_due = end;
                    self.last_payment_reference = Some(reference);
                    Ok(())
                } else {
                    Err(TransitionRejected)
                }
            },
            LifecycleEvent::PaymentFailed => {
                if self.status == SubscriptionStatus::AwaitingPayment {
                    self.status = SubscriptionStatus::PastDue;
                    Ok(())
                } else {
                    Err(TransitionRejected)
                }
            },
            LifecycleEvent::Terminated { reason } => {
                if self.is_termination_due(now) {
                    self.status = SubscriptionStatus::Canceled;
                    self.canceled_at = Some(now);
                    self.cancellation_reason = Some(reason);
                    Ok(())
                } else {
                    Err(TransitionRejected)
                }
            },
        }
    }
}

/// Access that a subscription grants at `now`: an active one does, and so
/// does any other whose current period has not ended yet.
pub open spec fn grants_access(sub: Option<Subscription>, now: i64) -> bool {
    match sub {
        Some(s) => s.status == SubscriptionStatus::Active || s.current_period_end >= now,
        None => false,
    }
}

/// Whether the user holding `sub` may use the product at `now`; a user with
/// no subscription may not.
pub fn subscription_gate(sub: Option<&Subscription>, now: i64) -> (r: bool)
    ensures
        r == grants_access(
            match sub {
                Some(s) => Some(*s),
                None => None,
            },
            now,
        ),
{
    match sub {
        Some(s) => s.status == SubscriptionStatus::Active || s.current_period_end >= now,
        None => false,
    }
}

} // verus!
