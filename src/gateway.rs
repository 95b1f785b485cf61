use vstd::prelude::*;
use hmac::{Hmac, Mac};
use sha2::Sha256;
use subtle::ConstantTimeEq;
use crate::clock::valid_time;
use crate::text::same_text;
use vstd::utf8::encode_utf8;

verus! {

// ---------------------------------------------------------------------------
// Webhook authenticity
// ---------------------------------------------------------------------------

/// The value of one hexadecimal digit, in either case.
pub open spec fn hex_digit(c: u8) -> Option<u8> {
    if 48 <= c <= 57 {
        Some((c - 48) as u8)
    } else if 97 <= c <= 102 {
        Some((c - 87) as u8)
    } else if 65 <= c <= 70 {
        Some((c - 55) as u8)
    } else {
        None
    }
}

/// The bytes that a text of hexadecimal digits spells, two digits per byte
/// with the high digit first; `None` for an odd length or a non-digit.
pub open spec fn hex_decoded(s: Seq<u8>) -> Option<Seq<u8>>
    decreases s.len(),
{
    if s.len() == 0 {
        Some(Seq::empty())
    } else if s.len() == 1 {
        None
    } else {
        match (hex_digit(s[0]), hex_digit(s[1]), hex_decoded(s.subrange(2, s.len() as int))) {
            (Some(h), Some(l), Some(rest)) => Some(seq![(h * 16 + l) as u8] + rest),
            _ => None,
        }
    }
}

/// The HMAC-SHA256 tag of `msg` under `key`.
pub uninterp spec fn hmac_sha256_of(key: Seq<u8>, msg: Seq<u8>) -> Seq<u8>;

/// Relies on `hex::decode`: pairs of hexadecimal digits, high digit first,
/// become one byte each; an odd length or any other character is an error.
#[verifier::external_body]
fn hex_decode(data: &[u8]) -> (r: Option<Vec<u8>>)
    ensures
        match r {
            Some(v) => hex_decoded(data@) == Some(v@),
            None => hex_decoded(data@) is None,
        },
{
    hex::decode(data).ok()
}

/// Relies on `hmac::Hmac<sha2::Sha256>`: the tag depends on the key and the
/// message alone, accepts a key of any length and is 32 bytes long.
#[verifier::external_body]
fn hmac_sha256(key: &[u8], msg: &[u8]) -> (r: Vec<u8>)
    ensures
        r@ == hmac_sha256_of(key@, msg@),
        r@.len() == 32,
{
    let mut mac = <Hmac<Sha256> as Mac>::new_from_slice(key).expect("any key length");
    mac.update(msg);
    mac.finalize().into_bytes().to_vec()
}

/// Relies on `subtle::ConstantTimeEq` for slices: true exactly when both have
/// the same length and the same bytes, and the bytes are compared without
/// stopping at the first difference.
#[verifier::external_body]
fn constant_time_eq(a: &[u8], b: &[u8]) -> (r: bool)
    ensures
        r == (a@ == b@),
{
    a.ct_eq(b).into()
}

/// A webhook signature is authentic when it is the hexadecimal spelling of
/// the HMAC-SHA256 tag of the raw body under the shared secret.
pub open spec fn signature_valid(secret: Seq<u8>, signature: Seq<u8>, body: Seq<u8>) -> bool {
    hex_decoded(signature) == Some(hmac_sha256_of(secret, body))
}

// ---------------------------------------------------------------------------
// Access credential
// ---------------------------------------------------------------------------

/// A cached token is not handed out within this many milliseconds of its expiry.
pub const TOKEN_MARGIN_MS: i64 = 60_000;

/// Lifetime assumed, in seconds, when the gateway declares none.
pub const DEFAULT_TOKEN_LIFETIME_SECS: u64 = 3000;

/// An access token of the gateway and the time at which it expires.
#[derive(Clone, Debug)]
pub struct OAuthToken {
    pub access_token: String,
    pub expires_at: i64,
}

/// The token may still be handed out at `now`.
pub open spec fn token_fresh(t: OAuthToken, now: i64) -> bool {
    now + TOKEN_MARGIN_MS < t.expires_at
}

/// Expiry of a token issued at `now` for `secs` seconds, held at the largest
/// timestamp where it would lie beyond it.
pub open spec fn expiry_after(now: i64, secs: u64) -> i64 {
    if now + secs * 1000 <= i64::MAX {
        (now + secs * 1000) as i64
    } else {
        i64::MAX
    }
}

/// The lifetime of a freshly exchanged token: as declared, else the default.
pub open spec fn lifetime_of(declared: Option<u64>) -> u64 {
    match declared {
        Some(s) => s,
        None => DEFAULT_TOKEN_LIFETIME_SECS,
    }
}

/// What the credential cache asks of its caller.
#[derive(Clone, Debug)]
pub enum CredentialStep {
    /// Use this cached token.
    Use(String),
    /// Exchange the client credentials for a new token, then `store` it.
    Exchange,
}

/// The one cached access token of a gateway client.
#[derive(Clone, Debug)]
pub struct CredentialCache {
    pub token: Option<OAuthToken>,
}

impl CredentialCache {
    /// A cache that holds no token.
    pub fn new() -> (r: CredentialCache)
        ensures
            r.token is None,
    {
        CredentialCache { token: None }
    }

    /// The cached token, where it expires more than a minute after `now`;
    /// otherwise a request for a new exchange.
    pub fn next_step(&self, now: i64) -> (r: CredentialStep)
        requires
            valid_time(now),
        ensures
            match r {
                CredentialStep::Use(t) => self.token is Some && token_fresh(self.token->0, now)
                    && t == self.token->0.access_token,
                CredentialStep::Exchange => !(self.token is Some && token_fresh(
                    self.token->0,
                    now,
                )),
            },
    {
        match &self.token {
            Some(tok) => {
                if now + TOKEN_MARGIN_MS < tok.expires_at {
                    CredentialStep::Use(tok.access_token.clone())
                } else {
                    CredentialStep::Exchange
                }
            },
            None => CredentialStep::Exchange,
        }
    }

    /// Stores the token of an exchange made at `now`, with the lifetime that
    /// the gateway declared (or the default), and returns it.
    pub fn store(&mut self, access_token: String, declared_lifetime: Option<u64>, now: i64) -> (r:
        String)
        requires
            valid_time(now),
        ensures
            r == access_token,
            final(self).token == Some(
                OAuthToken {
                    access_token,
                    expires_at: expiry_after(now, lifetime_of(declared_lifetime)),
                },
            ),
            lifetime_of(declared_lifetime) * 1000 > TOKEN_MARGIN_MS ==> token_fresh(
                final(self).token->0,
                now,
            ),
    {
        let secs = match declared_lifetime {
            Some(s) => s,
            None => DEFAULT_TOKEN_LIFETIME_SECS,
        };
        let room: i64 = i64::MAX - now;
        let expires_at: i64 = if secs <= (room / 1000) as u64 {
            now + (secs as i64) * 1000
        } else {
            i64::MAX
        };
        let handed = access_token.clone();
        self.token = Some(OAuthToken { access_token, expires_at });
        handed
    }
}

// ---------------------------------------------------------------------------
// Retry policy
// ---------------------------------------------------------------------------

/// What to do after one attempt of a retried call.
#[derive(Clone, Debug)]
pub enum RetryDecision<T> {
    /// The attempt succeeded: this is the call's result.
    Finish(T),
    /// Wait this many seconds, then make the next attempt.
    RetryAfter(u64),
    /// Every attempt failed: the call fails with the last error.
    GiveUp(String),
}

/// Bounded retry: one attempt per delay, each made after waiting its delay.
#[derive(Clone, Debug)]
pub struct RetryPolicy {
    pub delays_secs: Vec<u64>,
}

impl RetryPolicy {
    /// Four attempts, made after 0, 2, 5 and 10 seconds.
    pub fn standard() -> (r: RetryPolicy)
        ensures
            r.delays_secs@ == seq![0u64, 2, 5, 10],
    {
        RetryPolicy { delays_secs: vec![0, 2, 5, 10] }
    }

    /// The most attempts that the policy makes.
    pub fn max_attempts(&self) -> (r: usize)
        ensures
            r == self.delays_secs@.len(),
    {
        self.delays_secs.len()
    }

    /// The wait before the first attempt.
    pub fn first_delay(&self) -> (r: u64)
        requires
            self.delays_secs@.len() > 0,
        ensures
            r == self.delays_secs@[0],
    {
        self.delays_secs[0]
    }

    /// The decision after attempt number `attempt` (from zero) came back with
    /// `outcome`: finish on success, wait and try again while attempts are
    /// left, else fail with the last attempt's error.
    pub fn after_attempt<T>(&self, attempt: usize, outcome: Result<T, String>) -> (r: RetryDecision<
        T,
    >)
        requires
            attempt < self.delays_secs@.len(),
        ensures
            match outcome {
                Ok(v) => r == RetryDecision::Finish(v),
                Err(e) => if attempt + 1 < self.delays_secs@.len() {
                    r == RetryDecision::<T>::RetryAfter(self.delays_secs@[attempt + 1])
                } else {
                    r == RetryDecision::<T>::GiveUp(e)
                },
            },
    {
        match outcome {
            Ok(v) => RetryDecision::Finish(v),
            Err(e) => {
                if attempt < self.delays_secs.len() - 1 {
                    RetryDecision::RetryAfter(self.delays_secs[attempt + 1])
                } else {
                    RetryDecision::GiveUp(e)
                }
            },
        }
    }
}

// ---------------------------------------------------------------------------
// Channel availability and charge replies
// ---------------------------------------------------------------------------

/// What the gateway's health endpoint said of one channel.
#[derive(Clone, Debug)]
pub enum AvailabilityReply {
    /// The endpoint could not be reached, answered with an error status, or
    /// sent a body that is not a channel map.
    Failed,
    /// The channel map, and the channel's entry in it where it holds text.
    Reported(Option<String>),
}

/// A channel is usable unless the health check succeeded and did not list it
/// as online: a failed check never blocks a charge.
pub open spec fn channel_usable(reply: AvailabilityReply) -> bool {
    match reply {
        AvailabilityReply::Failed => true,
        AvailabilityReply::Reported(None) => false,
        AvailabilityReply::Reported(Some(s)) => s@ == "online"@,
    }
}

/// Whether a charge may go through the channel, from its health report.
pub fn check_availability(reply: &AvailabilityReply) -> (r: bool)
    ensures
        r == channel_usable(*reply),
{
    match reply {
        AvailabilityReply::Failed => true,
        AvailabilityReply::Reported(None) => false,
        AvailabilityReply::Reported(Some(s)) => same_text(s.as_str(), "online"),
    }
}

/// The gateway's answer to a charge request.
#[derive(Clone, Debug)]
pub struct RequestToPayRes {
    pub reference: String,
    pub status: String,
}

impl RequestToPayRes {
    /// The answer from the fields found in the reply body: a missing
    /// reference reads as empty, a missing status as "PENDING".
    pub fn from_fields(reference: Option<String>, status: Option<String>) -> (r: RequestToPayRes)
        ensures
            r.reference@ == (match reference {
                Some(s) => s@,
                None => Seq::empty(),
            }),
            r.status@ == (match status {
                Some(s) => s@,
                None => "PENDING"@,
            }),
    {
        let reference = match reference {
            Some(s) => s,
            None => String::new(),
        };
        let status = match status {
            Some(s) => s,
            None => String::from_str("PENDING"),
        };
        RequestToPayRes { reference, status }
    }
}

// ---------------------------------------------------------------------------
// Gateway client settings
// ---------------------------------------------------------------------------

/// Settings of the payment gateway client and its credential cache.
#[derive(Clone, Debug)]
pub struct NwaPay {
    pub base_url: String,
    pub client_id: String,
    pub client_secret: String,
    pub hmac_secret: String,
    pub cache: CredentialCache,
}

impl NwaPay {
    /// A client with the given settings and an empty credential cache.
    pub fn new(base_url: String, client_id: String, client_secret: String, hmac_secret: String) -> (r:
        NwaPay)
        ensures
            r.base_url == base_url,
            r.client_id == client_id,
            r.client_secret == client_secret,
            r.hmac_secret == hmac_secret,
            r.cache.token is None,
    {
        NwaPay { base_url, client_id, client_secret, hmac_secret, cache: CredentialCache::new() }
    }

    /// Whether `header_sig` is the hexadecimal HMAC-SHA256 of `body` under the
    /// shared secret. A signature that is not hexadecimal, or has the wrong
    /// length, is refused; the tags are compared in constant time.
    pub fn verify_webhook_signature(&self, header_sig: &str, body: &[u8]) -> (r: bool)
        ensures
            r == signature_valid(encode_utf8(self.hmac_secret@), encode_utf8(header_sig@), body@),
    {
        let expected = hmac_sha256(self.hmac_secret.as_str().as_bytes(), body);
        match hex_decode(header_sig.as_bytes()) {
            Some(provided) => constant_time_eq(provided.as_slice(), expected.as_slice()),
            None => false,
        }
    }
}

} // verus!
