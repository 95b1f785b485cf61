use vstd::prelude::*;
use crate::subscription::{Subscription, TransitionRejected};
use crate::text::same_text;

verus! {

/// Outcome of one charge attempt, as the ledger records it.
#[derive(Clone, Debug)]
pub enum PaymentStatus {
    Pending,
    Success,
    Failed,
    Timeout,
    /// The charge could not be submitted to the gateway at all.
    GatewayFailed,
    /// A status that the gateway reported and the ledger keeps as it came.
    Other(String),
}

/// A status name that the ledger knows by a variant of its own.
pub open spec fn known_status_name(s: Seq<char>) -> bool {
    s == "PENDING"@ || s == "SUCCESS"@ || s == "FAILED"@ || s == "TIMEOUT"@ || s
        == "GATEWAY_FAILED"@
}

/// `st` is the status that the ledger records for the status name `s`.
pub open spec fn status_named(st: PaymentStatus, s: Seq<char>) -> bool {
    match st {
        PaymentStatus::Pending => s == "PENDING"@,
        PaymentStatus::Success => s == "SUCCESS"@,
        PaymentStatus::Failed => s == "FAILED"@,
        PaymentStatus::Timeout => s == "TIMEOUT"@,
        PaymentStatus::GatewayFailed => s == "GATEWAY_FAILED"@,
        PaymentStatus::Other(x) => x@ == s && !known_status_name(s),
    }
}

impl PaymentStatus {
    /// The status recorded for the status name `s`.
    pub fn from_name(s: &str) -> (r: PaymentStatus)
        ensures
            status_named(r, s@),
    {
        if same_text(s, "PENDING") {
            PaymentStatus::Pending
        } else if same_text(s, "SUCCESS") {
            PaymentStatus::Success
        } else if same_text(s, "FAILED") {
            PaymentStatus::Failed
        } else if same_text(s, "TIMEOUT") {
            PaymentStatus::Timeout
        } else if same_text(s, "GATEWAY_FAILED") {
            PaymentStatus::GatewayFailed
        } else {
            PaymentStatus::Other(s.to_string())
        }
    }
}

/// One webhook delivery as received, kept for audit.
#[derive(Clone, Debug)]
pub struct WebhookLogEntry {
    pub raw_payload: String,
    pub received_at: i64,
}

/// One charge attempt against a subscription.
#[derive(Clone, Debug)]
pub struct Payment {
    pub id: String,
    pub user_id: String,
    pub subscription_id: String,
    pub amount: i64,
    pub currency_code: String,
    pub payment_channel: String,
    pub phone_reference: String,
    pub status: PaymentStatus,
    /// The gateway's reference for the charge, once it has accepted it.
    pub gateway_reference: Option<String>,
    pub attempt_number: u32,
    pub initiated_at: i64,
    pub completed_at: Option<i64>,
    /// Every webhook delivery that was applied, oldest first.
    pub webhook_log: Vec<WebhookLogEntry>,
}

/// The payment after a webhook reporting `status_name` was applied at `now`:
/// the delivery is appended to the log and the status and completion time
/// are set. Only the status is left open here, to `status_named`.
pub open spec fn settled(p: Payment, q: Payment, status_name: Seq<char>, raw: String, now: i64) -> bool {
    &&& status_named(q.status, status_name)
    &&& q.completed_at == Some(now)
    &&& q.webhook_log@ == p.webhook_log@.push(WebhookLogEntry { raw_payload: raw, received_at: now })
    &&& q.id == p.id
    &&& q.user_id == p.user_id
    &&& q.subscription_id == p.subscription_id
    &&& q.amount == p.amount
    &&& q.currency_code == p.currency_code
    &&& q.payment_channel == p.payment_channel
    &&& q.phone_reference == p.phone_reference
    &&& q.gateway_reference == p.gateway_reference
    &&& q.attempt_number == p.attempt_number
    &&& q.initiated_at == p.initiated_at
}

impl Payment {
    /// A pending charge for the next attempt on `sub`, copying its amount,
    /// currency, channel and phone.
    pub fn open(id: String, sub: &Subscription, now: i64) -> (r: Payment)
        requires
            sub.attempt_count < u32::MAX,
        ensures
            r.id == id,
            r.user_id == sub.user_id,
            r.subscription_id == sub.id,
            r.amount == sub.amount,
            r.currency_code == sub.currency_code,
            r.payment_channel == sub.payment_channel,
            r.phone_reference == sub.phone_reference,
            r.status is Pending,
            r.gateway_reference is None,
            r.attempt_number == sub.attempt_count + 1,
            r.initiated_at == now,
            r.completed_at is None,
            r.webhook_log@.len() == 0,
    {
        Payment {
            id,
            user_id: sub.user_id.clone(),
            subscription_id: sub.id.clone(),
            amount: sub.amount,
            currency_code: sub.currency_code.clone(),
            payment_channel: sub.payment_channel.clone(),
            phone_reference: sub.phone_reference.clone(),
            status: PaymentStatus::Pending,
            gateway_reference: None,
            attempt_number: sub.attempt_count + 1,
            initiated_at: now,
            completed_at: None,
            webhook_log: Vec::new(),
        }
    }

    /// Records the gateway's acceptance of a pending charge: its reference
    /// and the status it reported. Any other payment is left as it was.
    pub fn record_submission(&mut self, reference: String, status_name: &str) -> (r: Result<
        (),
        TransitionRejected,
    >)
        ensures
            r is Ok <==> old(self).status is Pending,
            r is Ok ==> ({
                &&& final(self).gateway_reference == Some(reference)
                &&& status_named(final(self).status, status_name@)
                &&& final(self).completed_at == old(self).completed_at
                &&& final(self).webhook_log == old(self).webhook_log
                &&& final(self).id == old(self).id
                &&& final(self).subscription_id == old(self).subscription_id
                &&& final(self).attempt_number == old(self).attempt_number
            }),
            r is Err ==> *final(self) == *old(self),
    {
        match self.status {
            PaymentStatus::Pending => {
                self.gateway_reference = Some(reference);
                self.status = PaymentStatus::from_name(status_name);
                Ok(())
            },
            _ => Err(TransitionRejected),
        }
    }

    /// Marks a pending charge that could not be submitted at all.
    pub fn record_gateway_failure(&mut self) -> (r: Result<(), TransitionRejected>)
        ensures
            r is Ok <==> old(self).status is Pending,
            r is Ok ==> *final(self) == (Payment { status: PaymentStatus::GatewayFailed, ..*old(self) }),
            r is Err ==> *final(self) == *old(self),
    {
        match self.status {
            PaymentStatus::Pending => {
                self.status = PaymentStatus::GatewayFailed;
                Ok(())
            },
            _ => Err(TransitionRejected),
        }
    }

    /// Applies a webhook delivery reporting `status_name`. A payment already
    /// collected is final: the delivery changes nothing and `false` comes
    /// back. Any other payment is settled and `true` comes back.
    pub fn settle(&mut self, status_name: &str, raw_payload: String, now: i64) -> (r: bool)
        ensures
            r == !(old(self).status is Success),
            !r ==> *final(self) == *old(self),
            r ==> settled(*old(self), *final(self), status_name@, raw_payload, now),
    {
        match self.status {
            PaymentStatus::Success => false,
            _ => {
                self.webhook_log.push(WebhookLogEntry { raw_payload, received_at: now });
                self.status = PaymentStatus::from_name(status_name);
                self.completed_at = Some(now);
                true
            },
        }
    }
}

} // verus!
