use vstd::prelude::*;
use vstd::utf8::encode_utf8;
use vstd::string::*;
use crate::idempotency::{EventResult, IdempotencyStore, ProcessedEvent};
use crate::rate_limit::{admits, after_call, RateLimiter};
use crate::signature::{signature_check, verify_signature_at};
use crate::subscription::{
    activated_record, copy_text_option, status_change, status_from_provider, status_named,
    SubscriptionManager, SubscriptionStatus, UserSubscription,
};
use crate::text::text_eq;

verus! {

/// Contact email used when a checkout names none.
pub const UNKNOWN_CHECKOUT_EMAIL: &'static str = "unknown@veritas.website";

/// Contact email used when an invoice notification names none.
pub const UNKNOWN_EMAIL: &'static str = "unknown";

/// Plan key used when a checkout names none: the cheapest tier.
pub const DEFAULT_PLAN: &'static str = "basic";

/// Admission key used when a request carries no client address.
pub const UNKNOWN_CLIENT: &'static str = "unknown";

/// Settings of the locally signed provider.
#[derive(Debug, Clone)]
pub struct StripeConfig {
    pub secret_key: String,
    pub webhook_secret: String,
    pub publishable_key: String,
    pub redis_url: Option<String>,
    pub domain: String,
    pub price_basic: String,
    pub price_premium: String,
}

#[derive(Debug, Clone)]
pub struct CustomerDetails {
    pub email: Option<String>,
    pub name: Option<String>,
}

/// A completed checkout session, as the notification carries it.
/// `metadata` lists its entries with distinct keys.
#[derive(Debug, Clone)]
pub struct CheckoutSession {
    pub id: String,
    pub customer: Option<String>,
    pub customer_email: Option<String>,
    pub customer_details: Option<CustomerDetails>,
    pub subscription: Option<String>,
    pub amount_total: Option<i64>,
    pub currency: Option<String>,
    pub status: String,
    pub payment_status: Option<String>,
    pub metadata: Option<Vec<(String, String)>>,
}

/// The fields of a notification's object that the handlers read; each is
/// `None` where the object lacks it or holds another kind of value there.
/// `checkout_session` is the object read as a checkout session, where it is
/// one.
#[derive(Debug, Clone)]
pub struct StripeEventData {
    pub customer_email: Option<String>,
    pub amount_paid: Option<i64>,
    pub status: Option<String>,
    pub amount: Option<i64>,
    pub checkout_session: Option<CheckoutSession>,
}

/// A notification of the locally signed provider.
#[derive(Debug, Clone)]
pub struct StripeEvent {
    pub id: String,
    pub event_type: String,
    pub created: i64,
    pub data: StripeEventData,
    pub livemode: bool,
}

/// An entry for the audit trail.
#[derive(Debug, Clone)]
pub struct AuditEntry {
    pub email: String,
    pub kind: String,
    pub amount_cents: Option<i64>,
}

/// What a handler did: its result, and the audit entry it emits.
#[derive(Debug)]
pub struct HandlerOutcome {
    pub result: Result<(), String>,
    pub audit: Option<AuditEntry>,
}

pub open spec fn text_or(o: Option<String>, default: Seq<char>) -> Seq<char> {
    match o {
        Some(s) => s@,
        None => default,
    }
}

/// The value of the first entry with `key`.
pub open spec fn first_value(m: Seq<(String, String)>, key: Seq<char>) -> Option<String>
    decreases m.len(),
{
    if m.len() == 0 {
        None
    } else if m[0].0@ == key {
        Some(m[0].1)
    } else {
        first_value(m.drop_first(), key)
    }
}

pub open spec fn audit_is(a: Option<AuditEntry>, email: Seq<char>, kind: Seq<char>, amount: Option<i64>) -> bool {
    &&& a is Some
    &&& a.unwrap().email@ == email
    &&& a.unwrap().kind@ == kind
    &&& a.unwrap().amount_cents == amount
}

/// An outcome that succeeded with the given audit entry.
pub open spec fn ok_with_audit(o: HandlerOutcome, email: Seq<char>, kind: Seq<char>, amount: Option<i64>) -> bool {
    o.result is Ok && audit_is(o.audit, email, kind, amount)
}

/// An outcome that succeeded and emitted nothing.
pub open spec fn ok_quietly(o: HandlerOutcome) -> bool {
    o.result is Ok && o.audit is None
}

/// The contact of a checkout: the customer details' email, else the session's
/// email, else a placeholder.
pub open spec fn checkout_email(s: CheckoutSession) -> Seq<char> {
    match s.customer_details {
        Some(d) => match d.email {
            Some(e) => e@,
            None => text_or(s.customer_email, UNKNOWN_CHECKOUT_EMAIL@),
        },
        None => text_or(s.customer_email, UNKNOWN_CHECKOUT_EMAIL@),
    }
}

/// The plan key of a checkout: its `plan` metadata, else the default.
pub open spec fn checkout_plan(s: CheckoutSession) -> Seq<char> {
    match s.metadata {
        Some(m) => text_or(first_value(m@, "plan"@), DEFAULT_PLAN@),
        None => DEFAULT_PLAN@,
    }
}

pub open spec fn checkout_paid(s: CheckoutSession) -> bool {
    s.payment_status is Some && s.payment_status.unwrap()@ == "paid"@
}

pub open spec fn checkout_post(
    before: Map<Seq<char>, UserSubscription>,
    after: Map<Seq<char>, UserSubscription>,
    data: StripeEventData,
    user_id: u128,
    now: i64,
    o: HandlerOutcome,
) -> bool {
    match data.checkout_session {
        None => after == before && o.audit is None && o.result is Err
            && o.result->Err_0@ == "Failed to parse checkout session"@,
        Some(s) => if !checkout_paid(s) {
            after == before && ok_quietly(o)
        } else {
            let email = checkout_email(s);
            &&& after == before.insert(email, after[email])
            &&& activated_record(email, s.customer, s.subscription, checkout_plan(s), user_id, now, after[email])
            &&& ok_with_audit(o, email, "checkout.completed"@, s.amount_total)
        },
    }
}

pub open spec fn amount_or_zero(a: Option<i64>) -> i64 {
    match a {
        Some(v) => v,
        None => 0,
    }
}

pub open spec fn is_handled_type(t: Seq<char>) -> bool {
    ||| t == "checkout.session.completed"@
    ||| t == "invoice.paid"@
    ||| t == "invoice.payment_failed"@
    ||| t == "invoice.payment_action_required"@
    ||| t == "customer.subscription.updated"@
    ||| t == "customer.subscription.deleted"@
    ||| t == "charge.dispute.created"@
}

pub open spec fn invoice_paid_post(
    before: Map<Seq<char>, UserSubscription>,
    after: Map<Seq<char>, UserSubscription>,
    data: StripeEventData,
    o: HandlerOutcome,
) -> bool {
    let email = text_or(data.customer_email, UNKNOWN_EMAIL@);
    after == status_change(before, email, SubscriptionStatus::Active)
        && ok_with_audit(o, email, "invoice.paid"@, Some(amount_or_zero(data.amount_paid)))
}

pub open spec fn payment_failed_post(
    before: Map<Seq<char>, UserSubscription>,
    after: Map<Seq<char>, UserSubscription>,
    data: StripeEventData,
    o: HandlerOutcome,
) -> bool {
    let email = text_or(data.customer_email, UNKNOWN_EMAIL@);
    after == status_change(before, email, SubscriptionStatus::PastDue)
        && ok_with_audit(o, email, "payment.failed"@, None)
}

pub open spec fn action_required_post(data: StripeEventData, o: HandlerOutcome) -> bool {
    ok_with_audit(o, text_or(data.customer_email, UNKNOWN_EMAIL@), "payment.action_required"@, None)
}

pub open spec fn subscription_updated_post(
    before: Map<Seq<char>, UserSubscription>,
    after: Map<Seq<char>, UserSubscription>,
    data: StripeEventData,
    o: HandlerOutcome,
) -> bool {
    match data.customer_email {
        None => after == before && ok_quietly(o),
        Some(e) => after == status_change(before, e@, status_named(text_or(data.status, "unknown"@)))
            && ok_with_audit(o, e@, "subscription.updated"@, None),
    }
}

pub open spec fn subscription_deleted_post(
    before: Map<Seq<char>, UserSubscription>,
    after: Map<Seq<char>, UserSubscription>,
    data: StripeEventData,
    o: HandlerOutcome,
) -> bool {
    match data.customer_email {
        None => after == before && ok_quietly(o),
        Some(e) => after == status_change(before, e@, SubscriptionStatus::Canceled)
            && ok_with_audit(o, e@, "subscription.deleted"@, None),
    }
}

pub open spec fn dispute_post(data: StripeEventData, o: HandlerOutcome) -> bool {
    ok_with_audit(o, "SYSTEM"@, "dispute.created"@, Some(amount_or_zero(data.amount)))
}

/// What dispatching a notification of type `t` does to the subscriber
/// records, and what it reports.
pub open spec fn dispatch_post(
    before: Map<Seq<char>, UserSubscription>,
    after: Map<Seq<char>, UserSubscription>,
    t: Seq<char>,
    data: StripeEventData,
    user_id: u128,
    now: i64,
    o: HandlerOutcome,
) -> bool {
    if t == "checkout.session.completed"@ {
        checkout_post(before, after, data, user_id, now, o)
    } else if t == "invoice.paid"@ {
        invoice_paid_post(before, after, data, o)
    } else if t == "invoice.payment_failed"@ {
        payment_failed_post(before, after, data, o)
    } else if t == "invoice.payment_action_required"@ {
        after == before && action_required_post(data, o)
    } else if t == "customer.subscription.updated"@ {
        subscription_updated_post(before, after, data, o)
    } else if t == "customer.subscription.deleted"@ {
        subscription_deleted_post(before, after, data, o)
    } else if t == "charge.dispute.created"@ {
        after == before && dispute_post(data, o)
    } else {
        after == before && ok_quietly(o)
    }
}

fn text_or_default<'a>(o: &'a Option<String>, default: &'a str) -> (r: &'a str)
    ensures
        r@ == text_or(*o, default@),
{
    match o {
        Some(s) => s.as_str(),
        None => default,
    }
}

/// The value of the first metadata entry with `key`.
pub fn metadata_value<'a>(m: &'a Vec<(String, String)>, key: &str) -> (r: Option<&'a String>)
    ensures
        match r {
            Some(v) => first_value(m@, key@) == Some(*v),
            None => first_value(m@, key@).is_none(),
        },
{
    let mut i: usize = 0;
    assert(m@.subrange(0, m@.len() as int) =~= m@);
    while i < m.len()
        invariant
            i <= m@.len(),
            first_value(m@, key@) == first_value(m@.subrange(i as int, m@.len() as int), key@),
        decreases m@.len() - i,
    {
        let ghost rest = m@.subrange(i as int, m@.len() as int);
        assert(rest[0] == m@[i as int]);
        assert(rest.drop_first() =~= m@.subrange(i + 1, m@.len() as int));
        if text_eq(m[i].0.as_str(), key) {
            return Some(&m[i].1);
        }
        i = i + 1;
    }
    assert(m@.subrange(i as int, m@.len() as int) =~= Seq::<(String, String)>::empty());
    None
}

fn audit(email: &str, kind: &str, amount_cents: Option<i64>) -> (r: Option<AuditEntry>)
    ensures
        audit_is(r, email@, kind@, amount_cents),
{
    Some(AuditEntry { email: String::from_str(email), kind: String::from_str(kind), amount_cents })
}

fn succeeded(audit: Option<AuditEntry>) -> (r: HandlerOutcome)
    ensures
        r.result is Ok,
        r.audit == audit,
{
    HandlerOutcome { result: Ok(()), audit }
}

/// Activates the subscriber of a paid checkout.
pub fn handle_checkout_completed(
    subscriptions: &mut SubscriptionManager,
    data: &StripeEventData,
    user_id: u128,
    now: i64,
) -> (r: HandlerOutcome)
    requires
        old(subscriptions).wf(),
    ensures
        final(subscriptions).wf(),
        checkout_post(old(subscriptions)@, final(subscriptions)@, *data, user_id, now, r),
{
    let session = match &data.checkout_session {
        Some(s) => s,
        None => {
            return HandlerOutcome {
                result: Err(String::from_str("Failed to parse checkout session")),
                audit: None,
            };
        },
    };
    let email: &str = match &session.customer_details {
        Some(d) => match &d.email {
            Some(e) => e.as_str(),
            None => text_or_default(&session.customer_email, UNKNOWN_CHECKOUT_EMAIL),
        },
        None => text_or_default(&session.customer_email, UNKNOWN_CHECKOUT_EMAIL),
    };
    let plan: &str = match &session.metadata {
        Some(m) => match metadata_value(m, "plan") {
            Some(p) => p.as_str(),
            None => DEFAULT_PLAN,
        },
        None => DEFAULT_PLAN,
    };
    let paid = match &session.payment_status {
        Some(p) => text_eq(p.as_str(), "paid"),
        None => false,
    };
    if !paid {
        return succeeded(None);
    }
    let record = subscriptions.activate_with(
        email,
        copy_text_option(&session.customer),
        copy_text_option(&session.subscription),
        plan,
        user_id,
        now,
    );
    assert(final(subscriptions)@[email@] == record);
    succeeded(audit(email, "checkout.completed", session.amount_total))
}

/// Keeps a recurring payer active.
pub fn handle_invoice_paid(subscriptions: &mut SubscriptionManager, data: &StripeEventData) -> (r: HandlerOutcome)
    requires
        old(subscriptions).wf(),
    ensures
        final(subscriptions).wf(),
        invoice_paid_post(old(subscriptions)@, final(subscriptions)@, *data, r),
{
    let email = text_or_default(&data.customer_email, UNKNOWN_EMAIL);
    let amount = match data.amount_paid {
        Some(a) => a,
        None => 0,
    };
    subscriptions.update_status(email, SubscriptionStatus::Active);
    succeeded(audit(email, "invoice.paid", Some(amount)))
}

/// Marks a payer whose payment failed as past due.
pub fn handle_payment_failed(subscriptions: &mut SubscriptionManager, data: &StripeEventData) -> (r: HandlerOutcome)
    requires
        old(subscriptions).wf(),
    ensures
        final(subscriptions).wf(),
        payment_failed_post(old(subscriptions)@, final(subscriptions)@, *data, r),
{
    let email = text_or_default(&data.customer_email, UNKNOWN_EMAIL);
    subscriptions.update_status(email, SubscriptionStatus::PastDue);
    succeeded(audit(email, "payment.failed", None))
}

/// Notes that a payment waits for the payer's action.
pub fn handle_payment_action_required(data: &StripeEventData) -> (r: HandlerOutcome)
    ensures
        action_required_post(*data, r),
{
    let email = text_or_default(&data.customer_email, UNKNOWN_EMAIL);
    succeeded(audit(email, "payment.action_required", None))
}

/// Takes over the provider's status of a subscription.
pub fn handle_subscription_updated(subscriptions: &mut SubscriptionManager, data: &StripeEventData) -> (r: HandlerOutcome)
    requires
        old(subscriptions).wf(),
    ensures
        final(subscriptions).wf(),
        subscription_updated_post(old(subscriptions)@, final(subscriptions)@, *data, r),
{
    match &data.customer_email {
        Some(email) => {
            let status = status_from_provider(text_or_default(&data.status, "unknown"));
            subscriptions.update_status(email.as_str(), status);
            succeeded(audit(email.as_str(), "subscription.updated", None))
        },
        None => succeeded(None),
    }
}

/// Cancels a deleted subscription.
pub fn handle_subscription_deleted(subscriptions: &mut SubscriptionManager, data: &StripeEventData) -> (r: HandlerOutcome)
    requires
        old(subscriptions).wf(),
    ensures
        final(subscriptions).wf(),
        subscription_deleted_post(old(subscriptions)@, final(subscriptions)@, *data, r),
{
    match &data.customer_email {
        Some(email) => {
            subscriptions.cancel_subscription(email.as_str());
            succeeded(audit(email.as_str(), "subscription.deleted", None))
        },
        None => succeeded(None),
    }
}

/// Flags a dispute for handling by hand; subscriber records stay as they are.
pub fn handle_dispute_created(data: &StripeEventData) -> (r: HandlerOutcome)
    ensures
        dispute_post(*data, r),
{
    let amount = match data.amount {
        Some(a) => a,
        None => 0,
    };
    succeeded(audit("SYSTEM", "dispute.created", Some(amount)))
}

/// Runs the handler for the notification's type; an unknown type is accepted
/// and changes nothing.
pub fn dispatch(
    subscriptions: &mut SubscriptionManager,
    event: &StripeEvent,
    user_id: u128,
    now: i64,
) -> (r: HandlerOutcome)
    requires
        old(subscriptions).wf(),
    ensures
        final(subscriptions).wf(),
        dispatch_post(old(subscriptions)@, final(subscriptions)@, event.event_type@, event.data, user_id, now, r),
{
    let t = event.event_type.as_str();
    if text_eq(t, "checkout.session.completed") {
        handle_checkout_completed(subscriptions, &event.data, user_id, now)
    } else if text_eq(t, "invoice.paid") {
        handle_invoice_paid(subscriptions, &event.data)
    } else if text_eq(t, "invoice.payment_failed") {
        handle_payment_failed(subscriptions, &event.data)
    } else if text_eq(t, "invoice.payment_action_required") {
        handle_payment_action_required(&event.data)
    } else if text_eq(t, "customer.subscription.updated") {
        handle_subscription_updated(subscriptions, &event.data)
    } else if text_eq(t, "customer.subscription.deleted") {
        handle_subscription_deleted(subscriptions, &event.data)
    } else if text_eq(t, "charge.dispute.created") {
        handle_dispute_created(&event.data)
    } else {
        succeeded(None)
    }
}

/// The answer to an inbound notification.
#[derive(Debug, Clone, Copy, PartialEq, Eq, Structural)]
pub enum StripeReply {
    RateLimited,
    MissingSignature,
    InvalidSignature,
    InvalidPayload,
    TestEventIgnored,
    AlreadyProcessed,
    Success,
    ProcessedWithError,
}

pub open spec fn reply_status(r: StripeReply) -> u16 {
    match r {
        StripeReply::RateLimited => 429,
        StripeReply::MissingSignature => 400,
        StripeReply::InvalidSignature => 401,
        StripeReply::InvalidPayload => 400,
        _ => 200,
    }
}

pub open spec fn reply_text(r: StripeReply) -> Seq<char> {
    match r {
        StripeReply::RateLimited => "Rate limit exceeded"@,
        StripeReply::MissingSignature => "Missing signature"@,
        StripeReply::InvalidSignature => "Invalid signature"@,
        StripeReply::InvalidPayload => "Invalid event payload"@,
        StripeReply::TestEventIgnored => "Test event ignored in live mode"@,
        StripeReply::AlreadyProcessed => "Already processed"@,
        StripeReply::Success => "Success"@,
        StripeReply::ProcessedWithError => "Processed with error"@,
    }
}

impl StripeReply {
    /// The HTTP status: 429 when rate limited, 400 or 401 for transport,
    /// authenticity and structure failures, 200 otherwise (also when a
    /// handler failed, so that the provider does not redeliver).
    pub fn status_code(&self) -> (r: u16)
        ensures
            r == reply_status(*self),
    {
        match self {
            StripeReply::RateLimited => 429,
            StripeReply::MissingSignature => 400,
            StripeReply::InvalidSignature => 401,
            StripeReply::InvalidPayload => 400,
            _ => 200,
        }
    }

    /// The short text sent back.
    pub fn text(&self) -> (r: &'static str)
        ensures
            r@ == reply_text(*self),
    {
        match self {
            StripeReply::RateLimited => "Rate limit exceeded",
            StripeReply::MissingSignature => "Missing signature",
            StripeReply::InvalidSignature => "Invalid signature",
            StripeReply::InvalidPayload => "Invalid event payload",
            StripeReply::TestEventIgnored => "Test event ignored in live mode",
            StripeReply::AlreadyProcessed => "Already processed",
            StripeReply::Success => "Success",
            StripeReply::ProcessedWithError => "Processed with error",
        }
    }
}

/// The answer, and what the handler did where one ran.
#[derive(Debug)]
pub struct StripeOutcome {
    pub reply: StripeReply,
    pub handled: Option<HandlerOutcome>,
}

/// Everything the intake of the locally signed provider keeps.
/// With `live_mode` set, test-mode notifications are ignored.
pub struct StripeWebhookState {
    pub config: StripeConfig,
    pub idempotency: IdempotencyStore,
    pub subscriptions: SubscriptionManager,
    pub rate_limiter: RateLimiter,
    pub live_mode: bool,
}

/// Calls admitted per client address in each window.
pub const REQUESTS_PER_MINUTE: u32 = 30;

/// The admission and authenticity verdict on a request at `now`.
pub open spec fn admission(
    s: StripeWebhookState,
    client: Seq<char>,
    signature: Option<Seq<u8>>,
    body: Seq<u8>,
    now: i64,
) -> Result<(), StripeReply> {
    if !admits(s.rate_limiter.buckets().get(client), s.rate_limiter.capacity(), s.rate_limiter.window(), now) {
        Err(StripeReply::RateLimited)
    } else {
        match signature {
            None => Err(StripeReply::MissingSignature),
            Some(h) => if signature_check(body, h, encode_utf8(s.config.webhook_secret@), now) is Ok {
                Ok(())
            } else {
                Err(StripeReply::InvalidSignature)
            },
        }
    }
}

/// The admission key of a request: its client address, else a placeholder.
pub open spec fn client_key(remote_ip: Option<&str>) -> Seq<char> {
    match remote_ip {
        Some(ip) => ip@,
        None => UNKNOWN_CLIENT@,
    }
}

/// The record written for a dispatched notification: success with
/// `record_id`, or the handler's failure text.
pub open spec fn record_of(rec: ProcessedEvent, id: String, now: i64, result: Result<(), String>, record_id: u128) -> bool {
    &&& rec.event_id == id
    &&& rec.processed_at == now
    &&& match result {
        Ok(()) => rec.result matches EventResult::Success { user_id, plan } && user_id == record_id && plan@ == "processed"@,
        Err(m) => rec.result matches EventResult::Failed { error } && error == m,
    }
}

/// What processing an authenticated notification (`None`: a body that is
/// not a notification) does to the state, and what it answers.
pub open spec fn process_post(
    s0: StripeWebhookState,
    parsed: Option<StripeEvent>,
    now: i64,
    user_id: u128,
    record_id: u128,
    s1: StripeWebhookState,
    o: StripeOutcome,
) -> bool {
    match parsed {
        None => s1 == s0 && o.reply == StripeReply::InvalidPayload && o.handled is None,
        Some(e) => if !e.livemode && s0.live_mode {
            s1 == s0 && o.reply == StripeReply::TestEventIgnored && o.handled is None
        } else if s0.idempotency@.contains_key(e.id@) {
            s1 == s0 && o.reply == StripeReply::AlreadyProcessed && o.handled is None
        } else {
            let h = o.handled.unwrap();
            &&& o.handled is Some
            &&& dispatch_post(s0.subscriptions@, s1.subscriptions@, e.event_type@, e.data, user_id, now, h)
            &&& s1.idempotency@ == s0.idempotency@.insert(e.id@, s1.idempotency@[e.id@])
            &&& record_of(s1.idempotency@[e.id@], e.id, now, h.result, record_id)
            &&& o.reply == if h.result is Ok { StripeReply::Success } else { StripeReply::ProcessedWithError }
            &&& s1.config == s0.config
            &&& s1.rate_limiter == s0.rate_limiter
            &&& s1.live_mode == s0.live_mode
        },
    }
}

impl StripeWebhookState {
    pub open spec fn wf(&self) -> bool {
        &&& self.idempotency.wf()
        &&& self.subscriptions.wf()
        &&& self.rate_limiter.wf()
    }

    /// Empty ledgers, and an admission limit of 30 calls per minute per client.
    pub fn new(config: StripeConfig, live_mode: bool) -> (r: Self)
        ensures
            r.wf(),
            r.config == config,
            r.live_mode == live_mode,
            r.idempotency@ == Map::<Seq<char>, ProcessedEvent>::empty(),
            r.subscriptions@ == Map::<Seq<char>, UserSubscription>::empty(),
            r.rate_limiter.buckets() == Map::<Seq<char>, (u32, i64)>::empty(),
            r.rate_limiter.capacity() == REQUESTS_PER_MINUTE,
            r.rate_limiter.window() == crate::rate_limit::WINDOW_SECS,
    {
        StripeWebhookState {
            config,
            idempotency: IdempotencyStore::new(),
            subscriptions: SubscriptionManager::new(),
            rate_limiter: RateLimiter::new(REQUESTS_PER_MINUTE),
            live_mode,
        }
    }

    /// Admission control for the client, then the signature check of the raw
    /// body, at time `now`. Only the client's bucket changes.
    pub fn authenticate(&mut self, remote_ip: Option<&str>, signature: Option<&str>, body: &[u8], now: i64) -> (r: Result<(), StripeReply>)
        requires
            old(self).wf(),
        ensures
            final(self).wf(),
            r == admission(
                *old(self),
                client_key(remote_ip),
                match signature {
                    Some(h) => Some(h.spec_bytes()),
                    None => None,
                },
                body@,
                now,
            ),
            final(self).config == old(self).config,
            final(self).idempotency == old(self).idempotency,
            final(self).subscriptions == old(self).subscriptions,
            final(self).live_mode == old(self).live_mode,
            final(self).rate_limiter.capacity() == old(self).rate_limiter.capacity(),
            final(self).rate_limiter.window() == old(self).rate_limiter.window(),
            final(self).rate_limiter.buckets() == old(self).rate_limiter.buckets().insert(
                client_key(remote_ip),
                after_call(
                    old(self).rate_limiter.buckets().get(client_key(remote_ip)),
                    old(self).rate_limiter.capacity(),
                    old(self).rate_limiter.window(),
                    now,
                ),
            ),
    {
        let client = match remote_ip {
            Some(ip) => ip,
            None => UNKNOWN_CLIENT,
        };
        if !self.rate_limiter.check_at(client, now) {
            return Err(StripeReply::RateLimited);
        }
        let header = match signature {
            Some(h) => h,
            None => return Err(StripeReply::MissingSignature),
        };
        match verify_signature_at(body, header, self.config.webhook_secret.as_str(), now) {
            Ok(()) => Ok(()),
            Err(_) => Err(StripeReply::InvalidSignature),
        }
    }

    /// Processes an authenticated notification at time `now`: drops a test
    /// notification in live mode, answers a notification seen before without
    /// running anything, and otherwise dispatches it and records how it was
    /// resolved, failures included. `user_id` identifies a subscriber that the
    /// handler creates, `record_id` a successful resolution.
    pub fn process_event(&mut self, parsed: Option<StripeEvent>, now: i64, user_id: u128, record_id: u128) -> (r: StripeOutcome)
        requires
            old(self).wf(),
        ensures
            final(self).wf(),
            process_post(*old(self), parsed, now, user_id, record_id, *final(self), r),
    {
        let event = match parsed {
            None => return StripeOutcome { reply: StripeReply::InvalidPayload, handled: None },
            Some(e) => e,
        };
        if !event.livemode && self.live_mode {
            return StripeOutcome { reply: StripeReply::TestEventIgnored, handled: None };
        }
        if self.idempotency.is_processed(event.id.as_str()) {
            return StripeOutcome { reply: StripeReply::AlreadyProcessed, handled: None };
        }
        let handled = dispatch(&mut self.subscriptions, &event, user_id, now);
        let (result, reply) = match &handled.result {
            Ok(()) => (
                EventResult::Success { user_id: record_id, plan: String::from_str("processed") },
                StripeReply::Success,
            ),
            Err(e) => (EventResult::Failed { error: e.clone() }, StripeReply::ProcessedWithError),
        };
        self.idempotency.mark_processed_at(event.id, result, now);
        StripeOutcome { reply, handled: Some(handled) }
    }
}

} // verus!
