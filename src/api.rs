use vstd::prelude::*;
use crate::clock::{add_days_spec, valid_time};
use crate::gateway::{channel_usable, check_availability, AvailabilityReply};
use crate::plan::{catalog_wf, find_plan, plan_pos, SubscriptionPlan};
use crate::records::SignupBody;
use crate::subscription::{Subscription, SubscriptionStatus};

verus! {

/// A request to start a subscription.
#[derive(Clone, Debug)]
pub struct InitiateBody {
    pub user_id: String,
    pub phone: String,
    pub network: String,
    pub plan_id: String,
}

/// The answer to a started subscription.
#[derive(Clone, Debug)]
pub struct InitiateRes {
    pub subscription_id: String,
    pub status: String,
}

/// A request to charge one subscription now.
#[derive(Clone, Debug)]
pub struct ChargeBody {
    pub subscription_id: String,
}

/// Why a subscription could not be started.
#[derive(Clone, Copy, Debug, PartialEq, Eq, Structural)]
pub enum InitiateError {
    /// The user, phone or network is empty.
    InvalidBody,
    /// The channel's health check reported it down.
    NetworkUnavailable,
    /// No plan of the catalog has the requested id.
    InvalidPlan,
    /// The user already holds a subscription that is not canceled.
    AlreadySubscribed,
}

/// The verdict on a request to start a subscription.
pub open spec fn initiate_verdict(
    body: InitiateBody,
    plans: Seq<SubscriptionPlan>,
    availability: AvailabilityReply,
    has_open_subscription: bool,
) -> Result<int, InitiateError> {
    if body.user_id@.len() == 0 || body.phone@.len() == 0 || body.network@.len() == 0 {
        Err(InitiateError::InvalidBody)
    } else if !channel_usable(availability) {
        Err(InitiateError::NetworkUnavailable)
    } else if plan_pos(plans, body.plan_id@) is None {
        Err(InitiateError::InvalidPlan)
    } else if has_open_subscription {
        Err(InitiateError::AlreadySubscribed)
    } else {
        Ok(plan_pos(plans, body.plan_id@)->0)
    }
}

/// Starts a subscription for the request at `now`, in its trial, under the
/// id `subscription_id`. `has_open_subscription` tells whether the user
/// already holds one that is not canceled.
pub fn initiate(
    body: InitiateBody,
    plans: &Vec<SubscriptionPlan>,
    availability: &AvailabilityReply,
    has_open_subscription: bool,
    subscription_id: String,
    now: i64,
) -> (r: Result<Subscription, InitiateError>)
    requires
        catalog_wf(plans@),
        valid_time(now),
    ensures
        match initiate_verdict(body, plans@, *availability, has_open_subscription) {
            Err(e) => r == Err::<Subscription, InitiateError>(e),
            Ok(pi) => r matches Ok(s) && {
                let plan = plans@[pi];
                &&& s.id == subscription_id
                &&& s.user_id == body.user_id
                &&& s.plan_id == plan.id
                &&& s.amount == plan.amount
                &&& s.currency_code == plan.currency
                &&& s.payment_channel == body.network
                &&& s.phone_reference == body.phone
                &&& s.status == SubscriptionStatus::Trial
                &&& s.period_start == now
                &&& s.current_period_end == add_days_spec(now, plan.trial_days)
                &&& s.next_charge_due == add_days_spec(now, plan.trial_days)
                &&& s.last_payment_reference is None
                &&& s.attempt_count == 0
                &&& s.created_at == now
                &&& s.canceled_at is None
                &&& s.cancellation_reason is None
            },
        },
{
    if body.user_id.unicode_len() == 0 || body.phone.unicode_len() == 0
        || body.network.unicode_len() == 0 {
        return Err(InitiateError::InvalidBody);
    }
    if !check_availability(availability) {
        return Err(InitiateError::NetworkUnavailable);
    }
    let pi = match find_plan(plans, body.plan_id.as_str()) {
        None => return Err(InitiateError::InvalidPlan),
        Some(pi) => pi,
    };
    if has_open_subscription {
        return Err(InitiateError::AlreadySubscribed);
    }
    assert(plans@[pi as int].wf());
    Ok(Subscription::start_trial(subscription_id, body.user_id, &plans[pi], body.network, body.phone, now))
}

impl InitiateRes {
    /// The answer for a started subscription: its id and status name.
    pub fn for_subscription(sub: &Subscription) -> (r: InitiateRes)
        ensures
            r.subscription_id == sub.id,
            sub.status == SubscriptionStatus::Trial ==> r.status@ == "TRIAL"@,
    {
        InitiateRes { subscription_id: sub.id.clone(), status: sub.status.name().to_string() }
    }
}

/// The plan that every new account starts a trial of.
pub const SIGNUP_PLAN: &'static str = "premium_monthly";

/// Why an account could not be opened.
#[derive(Clone, Copy, Debug, PartialEq, Eq, Structural)]
pub enum SignupError {
    /// The name, level, matricule, faculty, department or password is empty.
    InvalidBody,
    /// The catalog lacks the plan that new accounts start on.
    PlanMissing,
}

/// Every field that a sign-up needs is filled in.
pub open spec fn signup_complete(b: SignupBody) -> bool {
    &&& b.name@.len() > 0
    &&& b.level@.len() > 0
    &&& b.matricule@.len() > 0
    &&& b.faculty@.len() > 0
    &&& b.department@.len() > 0
    &&& b.password@.len() > 0
}

/// The text of an optional field, empty where it is missing.
pub open spec fn or_empty(o: Option<String>) -> Seq<char> {
    match o {
        Some(s) => s@,
        None => Seq::empty(),
    }
}

/// The trial subscription that opening the account `user_id` starts at
/// `now`, on the sign-up plan, with the phone and network given (empty where
/// missing).
pub fn signup_subscription(
    body: &SignupBody,
    user_id: String,
    subscription_id: String,
    plans: &Vec<SubscriptionPlan>,
    now: i64,
) -> (r: Result<Subscription, SignupError>)
    requires
        catalog_wf(plans@),
        valid_time(now),
    ensures
        !signup_complete(*body) ==> r == Err::<Subscription, SignupError>(SignupError::InvalidBody),
        signup_complete(*body) && plan_pos(plans@, SIGNUP_PLAN@) is None ==> r == Err::<
            Subscription,
            SignupError,
        >(SignupError::PlanMissing),
        signup_complete(*body) ==> match plan_pos(plans@, SIGNUP_PLAN@) {
            Some(pi) => r matches Ok(s) && {
                let plan = plans@[pi];
                &&& s.id == subscription_id
                &&& s.user_id == user_id
                &&& s.plan_id == plan.id
                &&& s.amount == plan.amount
                &&& s.currency_code == plan.currency
                &&& s.payment_channel@ == or_empty(body.network)
                &&& s.phone_reference@ == or_empty(body.phone)
                &&& s.status == SubscriptionStatus::Trial
                &&& s.next_charge_due == add_days_spec(now, plan.trial_days)
                &&& s.current_period_end == add_days_spec(now, plan.trial_days)
                &&& s.attempt_count == 0
            },
            None => true,
        },
{
    if body.name.unicode_len() == 0 || body.level.unicode_len() == 0
        || body.matricule.unicode_len() == 0 || body.faculty.unicode_len() == 0
        || body.department.unicode_len() == 0 || body.password.unicode_len() == 0 {
        return Err(SignupError::InvalidBody);
    }
    let pi = match find_plan(plans, SIGNUP_PLAN) {
        None => return Err(SignupError::PlanMissing),
        Some(pi) => pi,
    };
    assert(plans@[pi as int].wf());
    let network = match &body.network {
        Some(n) => n.clone(),
        None => String::new(),
    };
    let phone = match &body.phone {
        Some(p) => p.clone(),
        None => String::new(),
    };
    Ok(Subscription::start_trial(subscription_id, user_id, &plans[pi], network, phone, now))
}

} // verus!
