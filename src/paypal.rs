use vstd::prelude::*;
use vstd::utf8::encode_utf8;
use vstd::string::*;
use crate::keyed::KeyedStore;
use crate::text::{joined, push_bytes, text_eq};
use crate::trusted::base64_standard_of;

verus! {

pub const LIVE_API_BASE: &'static str = "https://api-m.paypal.com";

pub const SANDBOX_API_BASE: &'static str = "https://api-m.sandbox.paypal.com";

/// Seconds a credential is taken to live when the provider names no lifetime.
pub const DEFAULT_TOKEN_LIFETIME_SECS: i64 = 3600;

/// Seconds before the provider's expiry at which a cached credential is
/// dropped.
pub const TOKEN_SAFETY_MARGIN_SECS: i64 = 60;

/// Settings of the provider that verifies notifications on its side.
#[derive(Debug, Clone)]
pub struct PayPalConfig {
    pub client_id: String,
    pub client_secret: String,
    pub mode: String,
    pub webhook_id: String,
    pub domain: String,
    pub plan_basic_id: String,
    pub plan_premium_id: String,
}

pub open spec fn api_base(mode: Seq<char>) -> Seq<char> {
    if mode == "live"@ {
        LIVE_API_BASE@
    } else {
        SANDBOX_API_BASE@
    }
}

/// `client_id:client_secret` as bytes.
pub open spec fn client_credentials(c: PayPalConfig) -> Seq<u8> {
    encode_utf8(c.client_id@) + seq![58u8] + encode_utf8(c.client_secret@)
}

impl PayPalConfig {
    /// The live API in live mode, the sandbox otherwise.
    pub fn base_url(&self) -> (r: &str)
        ensures
            r@ == api_base(self.mode@),
    {
        if text_eq(self.mode.as_str(), "live") {
            LIVE_API_BASE
        } else {
            SANDBOX_API_BASE
        }
    }

    /// The endpoint that hands out credentials.
    pub fn token_url(&self) -> (r: String)
        ensures
            r@ == api_base(self.mode@) + "/v1/oauth2/token"@,
    {
        joined(self.base_url(), "/v1/oauth2/token")
    }

    /// The endpoint that verifies a notification's signature.
    pub fn verification_url(&self) -> (r: String)
        ensures
            r@ == api_base(self.mode@) + "/v1/notifications/verify-webhook-signature"@,
    {
        joined(self.base_url(), "/v1/notifications/verify-webhook-signature")
    }

    /// The `Authorization` value of a credential request: `Basic ` and the
    /// base64 form of `client_id:client_secret`.
    pub fn basic_authorization(&self) -> (r: String)
        ensures
            r@ == "Basic "@ + base64_standard_of(client_credentials(*self)),
    {
        let mut pair: Vec<u8> = Vec::new();
        push_bytes(&mut pair, self.client_id.as_str().as_bytes());
        pair.push(58u8);
        push_bytes(&mut pair, self.client_secret.as_str().as_bytes());
        proof {
            assert(pair@ =~= client_credentials(*self));
        }
        let encoded = crate::trusted::base64_standard(pair.as_slice());
        joined("Basic ", encoded.as_str())
    }
}

/// The fields of a notification's resource that the intake reads; each is
/// `None` where the resource lacks it or holds another kind of value there.
#[derive(Debug, Clone)]
pub struct PayPalResource {
    /// `amount.value`
    pub amount_value: Option<String>,
    /// `payer.email_address`
    pub payer_email: Option<String>,
    /// `subscriber.email_address`
    pub subscriber_email: Option<String>,
    /// `dispute_amount.value`
    pub dispute_amount_value: Option<String>,
}

/// A notification of the delegated-verification provider.
#[derive(Debug, Clone)]
pub struct PayPalEvent {
    pub id: String,
    pub event_type: String,
    pub create_time: String,
    pub resource_type: String,
    pub resource: PayPalResource,
    pub summary: Option<String>,
}

/// An entry for the audit trail; `amount` is the provider's decimal text.
#[derive(Debug, Clone)]
pub struct PayPalAudit {
    pub email: String,
    pub kind: String,
    pub amount: String,
}

/// The transport headers that delegated verification needs.
#[derive(Debug, Clone, Copy, PartialEq, Eq, Structural)]
pub enum TransmissionHeader {
    AuthAlgo,
    CertUrl,
    TransmissionId,
    TransmissionSig,
    TransmissionTime,
}

pub open spec fn header_name(h: TransmissionHeader) -> Seq<char> {
    match h {
        TransmissionHeader::AuthAlgo => "paypal-auth-algo"@,
        TransmissionHeader::CertUrl => "paypal-cert-url"@,
        TransmissionHeader::TransmissionId => "paypal-transmission-id"@,
        TransmissionHeader::TransmissionSig => "paypal-transmission-sig"@,
        TransmissionHeader::TransmissionTime => "paypal-transmission-time"@,
    }
}

impl TransmissionHeader {
    /// The header's name on the wire.
    pub fn name(&self) -> (r: &'static str)
        ensures
            r@ == header_name(*self),
    {
        match self {
            TransmissionHeader::AuthAlgo => "paypal-auth-algo",
            TransmissionHeader::CertUrl => "paypal-cert-url",
            TransmissionHeader::TransmissionId => "paypal-transmission-id",
            TransmissionHeader::TransmissionSig => "paypal-transmission-sig",
            TransmissionHeader::TransmissionTime => "paypal-transmission-time",
        }
    }
}

/// The values of the transport headers, as the request carried them.
#[derive(Debug, Clone)]
pub struct TransmissionHeaders {
    pub auth_algo: Option<String>,
    pub cert_url: Option<String>,
    pub transmission_id: Option<String>,
    pub transmission_sig: Option<String>,
    pub transmission_time: Option<String>,
}

/// The first transport header, in the order of the enum, that is missing.
pub open spec fn first_missing(h: TransmissionHeaders) -> Option<TransmissionHeader> {
    if h.auth_algo is None {
        Some(TransmissionHeader::AuthAlgo)
    } else if h.cert_url is None {
        Some(TransmissionHeader::CertUrl)
    } else if h.transmission_id is None {
        Some(TransmissionHeader::TransmissionId)
    } else if h.transmission_sig is None {
        Some(TransmissionHeader::TransmissionSig)
    } else if h.transmission_time is None {
        Some(TransmissionHeader::TransmissionTime)
    } else {
        None
    }
}

/// The first transport header that is missing, if any.
pub fn missing_header(h: &TransmissionHeaders) -> (r: Option<TransmissionHeader>)
    ensures
        r == first_missing(*h),
{
    if h.auth_algo.is_none() {
        Some(TransmissionHeader::AuthAlgo)
    } else if h.cert_url.is_none() {
        Some(TransmissionHeader::CertUrl)
    } else if h.transmission_id.is_none() {
        Some(TransmissionHeader::TransmissionId)
    } else if h.transmission_sig.is_none() {
        Some(TransmissionHeader::TransmissionSig)
    } else if h.transmission_time.is_none() {
        Some(TransmissionHeader::TransmissionTime)
    } else {
        None
    }
}

/// What to do first about an inbound notification.
#[derive(Debug)]
pub enum GateStep {
    /// A transport header is missing: refuse, without asking for a credential.
    Reject(TransmissionHeader),
    /// Ask the provider to verify, with this cached credential.
    Verify(String),
    /// Fetch a credential first, then ask the provider to verify.
    FetchCredential,
}

/// What came back from the provider's verification call. A failed
/// credential exchange, an unreadable body and a failed call are all
/// `CallFailed`.
#[derive(Debug, Clone)]
pub enum VerificationResponse {
    CallFailed,
    Completed { verification_status: Option<String> },
}

#[derive(Debug, Clone, Copy, PartialEq, Eq, Structural)]
pub enum GateVerdict {
    /// The provider vouched for the notification.
    Authentic,
    /// The provider answered, and not with `SUCCESS`.
    Rejected,
    /// The call failed and verification is not strict: go on, unverified.
    Unverified,
}

pub open spec fn verdict_of(response: VerificationResponse, strict: bool) -> GateVerdict {
    match response {
        VerificationResponse::CallFailed => if strict {
            GateVerdict::Rejected
        } else {
            GateVerdict::Unverified
        },
        VerificationResponse::Completed { verification_status } => if verification_status is Some
            && verification_status.unwrap()@ == "SUCCESS"@ {
            GateVerdict::Authentic
        } else {
            GateVerdict::Rejected
        },
    }
}

/// The verdict on the provider's answer; with `strict` unset a failed call
/// lets the notification through.
pub fn verification_verdict(response: &VerificationResponse, strict: bool) -> (r: GateVerdict)
    ensures
        r == verdict_of(*response, strict),
{
    match response {
        VerificationResponse::CallFailed => if strict {
            GateVerdict::Rejected
        } else {
            GateVerdict::Unverified
        },
        VerificationResponse::Completed { verification_status } => match verification_status {
            Some(s) => if text_eq(s.as_str(), "SUCCESS") {
                GateVerdict::Authentic
            } else {
                GateVerdict::Rejected
            },
            None => GateVerdict::Rejected,
        },
    }
}

/// What the credential endpoint answered.
#[derive(Debug, Clone)]
pub enum TokenResponse {
    /// The request failed or the status was not a success.
    Rejected,
    /// The body was not JSON.
    Unreadable,
    Body { access_token: Option<String>, expires_in: Option<i64> },
}

#[derive(Debug, Clone, Copy, PartialEq, Eq, Structural)]
pub enum CredentialError {
    Rejected,
    Unreadable,
    MissingToken,
}

/// `x` held to the range of `i64`.
pub open spec fn clamp_i64(x: int) -> i64 {
    if x < i64::MIN {
        i64::MIN
    } else if x > i64::MAX {
        i64::MAX
    } else {
        x as i64
    }
}

/// When a credential fetched at `now` is dropped: the provider's lifetime
/// (3600 s if it names none) less the safety margin.
pub open spec fn token_expiry(now: i64, expires_in: Option<i64>) -> i64 {
    let lifetime = match expires_in {
        Some(e) => e as int,
        None => DEFAULT_TOKEN_LIFETIME_SECS as int,
    };
    clamp_i64(now + lifetime - TOKEN_SAFETY_MARGIN_SECS)
}

/// The cached credential, where it is still good at `now`.
pub open spec fn live_token(cache: Option<(String, i64)>, now: i64) -> Option<String> {
    match cache {
        Some((t, expiry)) => if expiry > now {
            Some(t)
        } else {
            None
        },
        None => None,
    }
}

pub open spec fn text_or(o: Option<String>, default: Seq<char>) -> Seq<char> {
    match o {
        Some(s) => s@,
        None => default,
    }
}

/// The kind, contact and amount of the audit entry for a notification of
/// type `t`; none for a type the intake does not handle.
pub open spec fn audit_spec(t: Seq<char>, r: PayPalResource) -> Option<(Seq<char>, Seq<char>, Seq<char>)> {
    if t == "PAYMENT.CAPTURE.COMPLETED"@ {
        Some(("payment.captured"@, text_or(r.payer_email, "unknown"@), text_or(r.amount_value, "0.00"@)))
    } else if t == "PAYMENT.CAPTURE.DENIED"@ {
        Some(("payment.denied"@, "unknown"@, "0.00"@))
    } else if t == "PAYMENT.CAPTURE.REFUNDED"@ {
        Some(("payment.refunded"@, "unknown"@, text_or(r.amount_value, "0.00"@)))
    } else if t == "BILLING.SUBSCRIPTION.CREATED"@ {
        Some(("subscription.created"@, text_or(r.subscriber_email, "unknown"@), "0.00"@))
    } else if t == "BILLING.SUBSCRIPTION.ACTIVATED"@ {
        Some(("subscription.activated"@, "unknown"@, "0.00"@))
    } else if t == "BILLING.SUBSCRIPTION.CANCELLED"@ {
        Some(("subscription.cancelled"@, "unknown"@, "0.00"@))
    } else if t == "BILLING.SUBSCRIPTION.SUSPENDED"@ {
        Some(("subscription.suspended"@, "unknown"@, "0.00"@))
    } else if t == "BILLING.SUBSCRIPTION.PAYMENT.FAILED"@ {
        Some(("subscription.payment_failed"@, "unknown"@, "0.00"@))
    } else if t == "CUSTOMER.DISPUTE.CREATED"@ {
        Some(("dispute.created"@, "SYSTEM"@, text_or(r.dispute_amount_value, "0.00"@)))
    } else {
        None
    }
}

/// The audit entry for a notification.
pub open spec fn audit_for(e: PayPalEvent, a: Option<PayPalAudit>) -> bool {
    match audit_spec(e.event_type@, e.resource) {
        None => a is None,
        Some((kind, email, amount)) => {
            &&& a is Some
            &&& a.unwrap().kind@ == kind
            &&& a.unwrap().email@ == email
            &&& a.unwrap().amount@ == amount
        },
    }
}

fn text_or_default<'a>(o: &'a Option<String>, default: &'a str) -> (r: &'a str)
    ensures
        r@ == text_or(*o, default@),
{
    match o {
        Some(s) => s.as_str(),
        None => default,
    }
}

fn entry(email: &str, kind: &str, amount: &str) -> (r: Option<PayPalAudit>)
    ensures
        r is Some,
        r.unwrap().email@ == email@,
        r.unwrap().kind@ == kind@,
        r.unwrap().amount@ == amount@,
{
    Some(PayPalAudit { email: String::from_str(email), kind: String::from_str(kind), amount: String::from_str(amount) })
}

/// The audit entry that a notification calls for.
pub fn audit_entry(e: &PayPalEvent) -> (r: Option<PayPalAudit>)
    ensures
        audit_for(*e, r),
{
    let t = e.event_type.as_str();
    let r = &e.resource;
    if text_eq(t, "PAYMENT.CAPTURE.COMPLETED") {
        entry(text_or_default(&r.payer_email, "unknown"), "payment.captured", text_or_default(&r.amount_value, "0.00"))
    } else if text_eq(t, "PAYMENT.CAPTURE.DENIED") {
        entry("unknown", "payment.denied", "0.00")
    } else if text_eq(t, "PAYMENT.CAPTURE.REFUNDED") {
        entry("unknown", "payment.refunded", text_or_default(&r.amount_value, "0.00"))
    } else if text_eq(t, "BILLING.SUBSCRIPTION.CREATED") {
        entry(text_or_default(&r.subscriber_email, "unknown"), "subscription.created", "0.00")
    } else if text_eq(t, "BILLING.SUBSCRIPTION.ACTIVATED") {
        entry("unknown", "subscription.activated", "0.00")
    } else if text_eq(t, "BILLING.SUBSCRIPTION.CANCELLED") {
        entry("unknown", "subscription.cancelled", "0.00")
    } else if text_eq(t, "BILLING.SUBSCRIPTION.SUSPENDED") {
        entry("unknown", "subscription.suspended", "0.00")
    } else if text_eq(t, "BILLING.SUBSCRIPTION.PAYMENT.FAILED") {
        entry("unknown", "subscription.payment_failed", "0.00")
    } else if text_eq(t, "CUSTOMER.DISPUTE.CREATED") {
        entry("SYSTEM", "dispute.created", text_or_default(&r.dispute_amount_value, "0.00"))
    } else {
        None
    }
}

/// The answer to an inbound notification.
#[derive(Debug, Clone, Copy, PartialEq, Eq, Structural)]
pub enum PayPalReply {
    MissingHeader,
    InvalidSignature,
    InvalidPayload,
    AlreadyProcessed,
    Received,
}

pub open spec fn paypal_reply_text(r: PayPalReply) -> Seq<char> {
    match r {
        PayPalReply::MissingHeader => "Missing webhook header"@,
        PayPalReply::InvalidSignature => "Invalid webhook signature"@,
        PayPalReply::InvalidPayload => "Invalid event payload"@,
        PayPalReply::AlreadyProcessed => "Already processed"@,
        PayPalReply::Received => "Received"@,
    }
}

impl PayPalReply {
    pub fn status_code(&self) -> (r: u16)
        ensures
            r == match *self {
                PayPalReply::MissingHeader => 400u16,
                PayPalReply::InvalidSignature => 401u16,
                PayPalReply::InvalidPayload => 400u16,
                _ => 200u16,
            },
    {
        match self {
            PayPalReply::MissingHeader => 400,
            PayPalReply::InvalidSignature => 401,
            PayPalReply::InvalidPayload => 400,
            _ => 200,
        }
    }

    pub fn text(&self) -> (r: &'static str)
        ensures
            r@ == paypal_reply_text(*self),
    {
        match self {
            PayPalReply::MissingHeader => "Missing webhook header",
            PayPalReply::InvalidSignature => "Invalid webhook signature",
            PayPalReply::InvalidPayload => "Invalid event payload",
            PayPalReply::AlreadyProcessed => "Already processed",
            PayPalReply::Received => "Received",
        }
    }
}

#[derive(Debug)]
pub struct PayPalOutcome {
    pub reply: PayPalReply,
    pub audit: Option<PayPalAudit>,
}

/// The intake of the delegated-verification provider: its settings, the
/// credential cache (token and expiry, Unix seconds) and the ids of the
/// notifications processed, with when.
pub struct PayPalState {
    pub config: PayPalConfig,
    pub auth_token: Option<(String, i64)>,
    pub processed_events: KeyedStore<i64>,
}

impl PayPalState {
    pub closed spec fn processed(&self) -> Map<Seq<char>, i64> {
        self.processed_events.view()
    }

    pub closed spec fn wf(&self) -> bool {
        self.processed_events.wf()
    }

    pub fn new(config: PayPalConfig) -> (r: Self)
        ensures
            r.wf(),
            r.config == config,
            r.auth_token is None,
            r.processed() == Map::<Seq<char>, i64>::empty(),
    {
        PayPalState { config, auth_token: None, processed_events: KeyedStore::new() }
    }

    /// The cached credential, where it is still good at `now`.
    pub fn cached_token(&self, now: i64) -> (r: Option<String>)
        ensures
            r == live_token(self.auth_token, now),
    {
        match &self.auth_token {
            Some((token, expiry)) => if *expiry > now {
                Some(token.clone())
            } else {
                None
            },
            None => None,
        }
    }

    /// Takes the credential endpoint's answer at `now`; caches and returns
    /// the credential it carries.
    pub fn accept_token_response(&mut self, response: TokenResponse, now: i64) -> (r: Result<String, CredentialError>)
        ensures
            final(self).config == old(self).config,
            final(self).processed_events == old(self).processed_events,
            match response {
                TokenResponse::Rejected => r == Err::<String, CredentialError>(CredentialError::Rejected)
                    && final(self).auth_token == old(self).auth_token,
                TokenResponse::Unreadable => r == Err::<String, CredentialError>(CredentialError::Unreadable)
                    && final(self).auth_token == old(self).auth_token,
                TokenResponse::Body { access_token, expires_in } => match access_token {
                    None => r == Err::<String, CredentialError>(CredentialError::MissingToken)
                        && final(self).auth_token == old(self).auth_token,
                    Some(t) => r == Ok::<String, CredentialError>(t)
                        && final(self).auth_token == Some((t, token_expiry(now, expires_in))),
                },
            },
    {
        match response {
            TokenResponse::Rejected => Err(CredentialError::Rejected),
            TokenResponse::Unreadable => Err(CredentialError::Unreadable),
            TokenResponse::Body { access_token, expires_in } => match access_token {
                None => Err(CredentialError::MissingToken),
                Some(token) => {
                    let lifetime: i64 = match expires_in {
                        Some(e) => e,
                        None => DEFAULT_TOKEN_LIFETIME_SECS,
                    };
                    let x: i128 = now as i128 + lifetime as i128 - TOKEN_SAFETY_MARGIN_SECS as i128;
                    let expiry: i64 = if x < i64::MIN as i128 {
                        i64::MIN
                    } else if x > i64::MAX as i128 {
                        i64::MAX
                    } else {
                        x as i64
                    };
                    self.auth_token = Some((token.clone(), expiry));
                    Ok(token)
                },
            },
        }
    }

    /// The first step on an inbound notification at `now`: refuse it when a
    /// transport header is missing (no credential is fetched then), else ask
    /// for verification with the cached credential or after fetching one.
    pub fn begin_verification(&self, headers: &TransmissionHeaders, now: i64) -> (r: GateStep)
        ensures
            match first_missing(*headers) {
                Some(h) => r == GateStep::Reject(h),
                None => match live_token(self.auth_token, now) {
                    Some(t) => r == GateStep::Verify(t),
                    None => r == GateStep::FetchCredential,
                },
            },
    {
        match missing_header(headers) {
            Some(h) => GateStep::Reject(h),
            None => match self.cached_token(now) {
                Some(t) => GateStep::Verify(t),
                None => GateStep::FetchCredential,
            },
        }
    }

    pub fn is_processed(&self, event_id: &str) -> (r: bool)
        requires
            self.wf(),
        ensures
            r == self.processed().contains_key(event_id@),
    {
        self.processed_events.contains(event_id)
    }

    pub fn mark_processed_at(&mut self, event_id: String, now: i64)
        requires
            old(self).wf(),
        ensures
            final(self).wf(),
            final(self).config == old(self).config,
            final(self).auth_token == old(self).auth_token,
            final(self).processed() == old(self).processed().insert(event_id@, now),
    {
        self.processed_events.insert(event_id, now);
    }

    /// Records notification `event_id` as processed at the current time.
    pub fn mark_processed(&mut self, event_id: String)
        requires
            old(self).wf(),
        ensures
            final(self).wf(),
            final(self).config == old(self).config,
            final(self).auth_token == old(self).auth_token,
            final(self).processed().dom() == old(self).processed().dom().insert(event_id@),
            forall|k: Seq<char>| k != event_id@ && old(self).processed().contains_key(k)
                ==> #[trigger] final(self).processed()[k] == old(self).processed()[k],
    {
        let now = crate::trusted::unix_now();
        self.mark_processed_at(event_id, now);
    }

    /// Processes a notification that was let through (`None`: a body that is
    /// not a notification): a notification seen before is answered without
    /// effect; any other is recorded, with its audit entry.
    pub fn process_event(&mut self, parsed: Option<PayPalEvent>, now: i64) -> (r: PayPalOutcome)
        requires
            old(self).wf(),
        ensures
            final(self).wf(),
            final(self).config == old(self).config,
            final(self).auth_token == old(self).auth_token,
            match parsed {
                None => final(self).processed() == old(self).processed() && r.reply == PayPalReply::InvalidPayload
                    && r.audit is None,
                Some(e) => if old(self).processed().contains_key(e.id@) {
                    final(self).processed() == old(self).processed() && r.reply == PayPalReply::AlreadyProcessed
                        && r.audit is None
                } else {
                    &&& final(self).processed() == old(self).processed().insert(e.id@, now)
                    &&& r.reply == PayPalReply::Received
                    &&& audit_for(e, r.audit)
                },
            },
    {
        let event = match parsed {
            None => return PayPalOutcome { reply: PayPalReply::InvalidPayload, audit: None },
            Some(e) => e,
        };
        if self.is_processed(event.id.as_str()) {
            return PayPalOutcome { reply: PayPalReply::AlreadyProcessed, audit: None };
        }
        let audit = audit_entry(&event);
        self.mark_processed_at(event.id, now);
        PayPalOutcome { reply: PayPalReply::Received, audit }
    }
}

} // verus!
