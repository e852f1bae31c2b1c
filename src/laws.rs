//! Properties that relate several calls of the library.
use vstd::prelude::*;
use crate::rate_limit::{admits, after_call, Bucket};
use crate::signature::{
    decimal_i64, expected_signature, header_value, is_digit, last_value, segment_value,
    signature_check, signature_key, split_commas, timestamp_key, within_tolerance,
};
use crate::stripe::{is_handled_type, process_post, StripeEvent, StripeOutcome, StripeReply, StripeWebhookState};
use crate::subscription::{status_change, SubscriptionStatus, UserSubscription};
use crate::trusted::{hex_digit, hex_lower};
use crate::paypal::{live_token, token_expiry, TOKEN_SAFETY_MARGIN_SECS};

verus! {

/// The signature header `t=<t>,v1=<sig>`.
pub open spec fn signature_header_for(t: Seq<u8>, sig: Seq<u8>) -> Seq<u8> {
    seq![116u8, 61u8] + t + seq![44u8, 118u8, 49u8, 61u8] + sig
}

pub open spec fn has_no_comma(s: Seq<u8>) -> bool {
    forall|i: int| 0 <= i < s.len() ==> s[i] != 44
}

proof fn lemma_split_without_comma(x: Seq<u8>)
    requires
        has_no_comma(x),
    ensures
        split_commas(x) == seq![x],
    decreases x.len(),
{
    if x.len() == 0 {
        assert(x =~= Seq::<u8>::empty());
    } else {
        let y = x.drop_last();
        assert(has_no_comma(y)) by {
            assert forall|i: int| 0 <= i < y.len() implies y[i] != 44 by {
                assert(y[i] == x[i]);
            }
        }
        lemma_split_without_comma(y);
        assert(x[x.len() - 1] != 44);
        assert(y.push(x.last()) =~= x);
        assert(split_commas(x) =~= seq![x]);
    }
}

proof fn lemma_split_append(p: Seq<u8>, b: Seq<u8>)
    requires
        has_no_comma(b),
        split_commas(p).len() >= 1,
    ensures
        split_commas(p + b) == split_commas(p).drop_last().push(split_commas(p).last() + b),
    decreases b.len(),
{
    let s = split_commas(p);
    if b.len() == 0 {
        assert(p + b =~= p);
        assert(s.last() + b =~= s.last());
        assert(s.drop_last().push(s.last()) =~= s);
    } else {
        let c = b.drop_last();
        assert(has_no_comma(c)) by {
            assert forall|i: int| 0 <= i < c.len() implies c[i] != 44 by {
                assert(c[i] == b[i]);
            }
        }
        lemma_split_append(p, c);
        assert((p + b).drop_last() =~= p + c);
        assert((p + b).last() == b.last());
        assert(b[b.len() - 1] != 44);
        assert(c.push(b.last()) =~= b);
        assert((s.last() + c).push(b.last()) =~= s.last() + b);
        assert(split_commas(p + b) =~= s.drop_last().push(s.last() + b));
    }
}

proof fn lemma_hex_has_no_comma(b: Seq<u8>)
    ensures
        has_no_comma(hex_lower(b)),
    decreases b.len(),
{
    if b.len() > 0 {
        lemma_hex_has_no_comma(b.drop_last());
        let h = hex_lower(b);
        let init = hex_lower(b.drop_last());
        let hi = hex_digit(b.last() / 16);
        let lo = hex_digit(b.last() % 16);
        assert(hi != 44 && lo != 44);
        assert forall|i: int| 0 <= i < h.len() implies h[i] != 44 by {
            if i < init.len() {
                assert(h[i] == init[i]);
            } else if i == init.len() {
                assert(h[i] == hi);
            } else {
                assert(h[i] == lo);
            }
        }
    }
}

proof fn lemma_decimal_has_no_comma(t: Seq<u8>)
    requires
        decimal_i64(t) is Some,
    ensures
        has_no_comma(t),
{
    let signed = t.len() > 0 && (t[0] == 45 || t[0] == 43);
    let d = if signed { t.drop_first() } else { t };
    assert forall|i: int| 0 <= i < t.len() implies t[i] != 44 by {
        if signed {
            if i > 0 {
                assert(t[i] == d[i - 1]);
                assert(is_digit(d[i - 1]));
            }
        } else {
            assert(t[i] == d[i]);
            assert(is_digit(d[i]));
        }
    }
}

/// A notification whose header carries a timestamp text `t` within the
/// tolerance of `now` and, as `v1`, the hexadecimal HMAC-SHA256 of
/// `t.body` under the shared secret is accepted.
pub proof fn law_correctly_signed_notification_is_accepted(payload: Seq<u8>, secret: Seq<u8>, t: Seq<u8>, now: i64)
    requires
        decimal_i64(t) is Some,
        within_tolerance(now as int, decimal_i64(t).unwrap() as int),
    ensures
        signature_check(
            payload,
            signature_header_for(t, expected_signature(secret, t, payload)),
            secret,
            now,
        ) == Ok::<(), crate::signature::SignatureError>(()),
{
    let sig = expected_signature(secret, t, payload);
    let first = seq![116u8, 61u8] + t;
    let second = seq![118u8, 49u8, 61u8] + sig;
    let h = signature_header_for(t, sig);
    lemma_decimal_has_no_comma(t);
    lemma_hex_has_no_comma(crate::trusted::hmac_sha256_of(secret, crate::signature::signed_message(t, payload)));
    assert(has_no_comma(first)) by {
        assert forall|i: int| 0 <= i < first.len() implies first[i] != 44 by {
            if i >= 2 {
                assert(first[i] == t[i - 2]);
            }
        }
    }
    assert(has_no_comma(second)) by {
        assert forall|i: int| 0 <= i < second.len() implies second[i] != 44 by {
            if i >= 3 {
                assert(second[i] == sig[i - 3]);
            }
        }
    }
    lemma_split_without_comma(first);
    let with_comma = first.push(44u8);
    assert(with_comma.drop_last() =~= first);
    assert(split_commas(with_comma) == seq![first].push(Seq::<u8>::empty()));
    lemma_split_append(with_comma, second);
    assert(h =~= with_comma + second);
    let segs = split_commas(h);
    assert(segs =~= seq![first, second]) by {
        assert(split_commas(with_comma).drop_last() =~= seq![first]);
        assert(split_commas(with_comma).last() + second =~= second);
    }
    assert(segment_value(second, timestamp_key()).is_none()) by {
        assert(second.subrange(0, 1)[0] == 118u8);
        assert(second.subrange(0, 1) != timestamp_key());
    }
    assert(segs.drop_last() =~= seq![first]);
    assert(first.subrange(0, 1) =~= timestamp_key());
    assert(first.subrange(2, first.len() as int) =~= t);
    assert(segment_value(first, timestamp_key()) == Some(t));
    assert(seq![first].drop_last() =~= Seq::<Seq<u8>>::empty());
    assert(seq![first].last() == first);
    assert(last_value(seq![first], timestamp_key()) == Some(t));
    assert(segs.last() == second);
    assert(last_value(segs, timestamp_key()) == last_value(segs.drop_last(), timestamp_key()));
    assert(header_value(h, timestamp_key()) == Some(t));
    assert(second.subrange(0, 2) =~= signature_key());
    assert(second.subrange(3, second.len() as int) =~= sig);
    assert(segment_value(second, signature_key()) == Some(sig));
    assert(header_value(h, signature_key()) == Some(sig));
}

/// The buckets of a key after calls at `times`, from bucket `b`.
pub open spec fn bucket_after_calls(b: Option<Bucket>, capacity: u32, window: i64, times: Seq<i64>) -> Option<Bucket>
    decreases times.len(),
{
    if times.len() == 0 {
        b
    } else {
        Some(after_call(bucket_after_calls(b, capacity, window, times.drop_last()), capacity, window, times.last()))
    }
}

proof fn lemma_calls_within_window(capacity: u32, window: i64, times: Seq<i64>, i: int)
    requires
        window > 0,
        0 < i <= times.len(),
        i <= capacity,
        forall|j: int| 0 <= j < times.len() ==> times[0] <= #[trigger] times[j] && times[j] - times[0] < window,
    ensures
        bucket_after_calls(None, capacity, window, times.take(i)) == Some(((capacity - i) as u32, times[0])),
    decreases i,
{
    let prefix = times.take(i);
    assert(prefix.drop_last() =~= times.take(i - 1));
    assert(prefix.last() == times[i - 1]);
    if i > 1 {
        lemma_calls_within_window(capacity, window, times, i - 1);
    } else {
        assert(times.take(0) =~= Seq::<i64>::empty());
    }
}

/// With room for `capacity` calls per window, a key first seen at
/// `times[0]` has each of its first `capacity` calls within the window
/// admitted, and the next one within the window refused.
pub proof fn law_admission_capacity(capacity: u32, window: i64, times: Seq<i64>)
    requires
        window > 0,
        times.len() == capacity + 1,
        forall|j: int| 0 <= j < times.len() ==> times[0] <= #[trigger] times[j] && times[j] - times[0] < window,
    ensures
        forall|i: int| 0 <= i < capacity ==> #[trigger] admits(bucket_after_calls(None, capacity, window, times.take(i)), capacity, window, times[i]),
        !admits(bucket_after_calls(None, capacity, window, times.take(capacity as int)), capacity, window, times[capacity as int]),
{
    assert forall|i: int| 0 <= i < capacity implies #[trigger] admits(bucket_after_calls(None, capacity, window, times.take(i)), capacity, window, times[i]) by {
        if i > 0 {
            lemma_calls_within_window(capacity, window, times, i);
        } else {
            assert(times.take(0) =~= Seq::<i64>::empty());
        }
    }
    if capacity > 0 {
        lemma_calls_within_window(capacity, window, times, capacity as int);
    } else {
        assert(times.take(0) =~= Seq::<i64>::empty());
    }
}

/// Once a bucket's window has run out, a call is admitted again.
pub proof fn law_admission_reopens_after_window(tokens: u32, started: i64, capacity: u32, window: i64, now: i64)
    requires
        capacity > 0,
        now - started >= window,
    ensures
        admits(Some((tokens, started)), capacity, window, now),
        after_call(Some((tokens, started)), capacity, window, now) == ((capacity - 1) as u32, now),
{
}

/// After an activation, a failed payment and then a paid invoice leave the
/// subscriber past due and then active again.
pub proof fn law_past_due_then_active(m: Map<Seq<char>, UserSubscription>, email: Seq<char>, record: UserSubscription)
    requires
        record.status == SubscriptionStatus::Active,
    ensures
        status_change(m.insert(email, record), email, SubscriptionStatus::PastDue)[email].status
            == SubscriptionStatus::PastDue,
        status_change(
            status_change(m.insert(email, record), email, SubscriptionStatus::PastDue),
            email,
            SubscriptionStatus::Active,
        )[email].status == SubscriptionStatus::Active,
{
}

/// No status is terminal: whatever a record's status, a status update sets
/// the status it names, a canceled record included.
pub proof fn law_any_status_may_follow(m: Map<Seq<char>, UserSubscription>, email: Seq<char>, status: SubscriptionStatus)
    requires
        m.contains_key(email),
    ensures
        status_change(m, email, status)[email].status == status,
        status_change(m, email, status).dom() == m.dom(),
{
    assert(status_change(m, email, status).dom() =~= m.dom());
}

/// A notification delivered twice is dispatched at most once: the first
/// delivery leaves a record whatever its outcome, and the second changes
/// nothing and is answered as already processed.
pub proof fn law_redelivery_is_answered_as_duplicate(
    s0: StripeWebhookState,
    e: StripeEvent,
    now1: i64,
    user_id1: u128,
    record_id1: u128,
    s1: StripeWebhookState,
    o1: StripeOutcome,
    now2: i64,
    user_id2: u128,
    record_id2: u128,
    s2: StripeWebhookState,
    o2: StripeOutcome,
)
    requires
        e.livemode || !s0.live_mode,
        process_post(s0, Some(e), now1, user_id1, record_id1, s1, o1),
        process_post(s1, Some(e), now2, user_id2, record_id2, s2, o2),
    ensures
        s1.idempotency@.contains_key(e.id@),
        s2 == s1,
        o2.reply == StripeReply::AlreadyProcessed,
        o2.handled is None,
{
}

/// A notification of a type without a handler is accepted, leaves the
/// subscriber records as they are, and is still recorded, as a success.
pub proof fn law_unknown_type_is_accepted_and_recorded(
    s0: StripeWebhookState,
    e: StripeEvent,
    now: i64,
    user_id: u128,
    record_id: u128,
    s1: StripeWebhookState,
    o: StripeOutcome,
)
    requires
        !is_handled_type(e.event_type@),
        e.livemode || !s0.live_mode,
        !s0.idempotency@.contains_key(e.id@),
        process_post(s0, Some(e), now, user_id, record_id, s1, o),
    ensures
        o.reply == StripeReply::Success,
        s1.subscriptions@ == s0.subscriptions@,
        s1.idempotency@.contains_key(e.id@),
        s1.idempotency@[e.id@].result is Success,
{
}

/// A credential fetched at `fetched_at` with lifetime `lifetime` is handed
/// out from the cache only while more than the safety margin of that
/// lifetime is left.
pub proof fn law_cached_credential_keeps_margin(token: String, fetched_at: i64, lifetime: i64, now: i64)
    requires
        i64::MIN <= fetched_at + lifetime - TOKEN_SAFETY_MARGIN_SECS <= i64::MAX,
        live_token(Some((token, token_expiry(fetched_at, Some(lifetime)))), now) is Some,
    ensures
        fetched_at + lifetime - now > TOKEN_SAFETY_MARGIN_SECS,
{
}

} // verus!
