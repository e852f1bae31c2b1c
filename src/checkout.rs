use vstd::prelude::*;
use vstd::string::*;
use vstd::utf8::*;
use crate::paypal::PayPalConfig;
use crate::stripe::{CheckoutSession, StripeConfig};
use crate::text::text_eq;
use crate::trusted::{hex_digit, hex_lower, hmac_sha256_of};

verus! {

broadcast use vstd::string::group_string_axioms;

/// Contact email reported for a verified session that names none.
pub const UNKNOWN_SESSION_EMAIL: &'static str = "unknown";

/// Whether a checkout session id is well formed: it starts with `cs_`.
pub fn session_id_valid(session_id: &str) -> (r: bool)
    ensures
        r == (session_id.spec_bytes().len() >= 3 && session_id.spec_bytes().subrange(0, 3) == seq![99u8, 115u8, 95u8]),
{
    let b = session_id.as_bytes();
    if b.len() < 3 {
        return false;
    }
    let ok = b[0] == 99u8 && b[1] == 115u8 && b[2] == 95u8;
    proof {
        if ok {
            assert(b@.subrange(0, 3) =~= seq![99u8, 115u8, 95u8]);
        } else {
            let p = b@.subrange(0, 3);
            assert(p[0] == b@[0] && p[1] == b@[1] && p[2] == b@[2]);
        }
    }
    ok
}

/// What a verified session is reported as.
#[derive(Debug, Clone)]
pub struct VerifyResponse {
    pub valid: bool,
    pub plan: String,
    pub email: String,
    pub license_key: String,
}

pub open spec fn session_email(s: CheckoutSession) -> Seq<char> {
    match s.customer_details {
        Some(d) => match d.email {
            Some(e) => e@,
            None => crate::stripe::text_or(s.customer_email, UNKNOWN_SESSION_EMAIL@),
        },
        None => crate::stripe::text_or(s.customer_email, UNKNOWN_SESSION_EMAIL@),
    }
}

pub open spec fn upper_ascii(c: u8) -> u8 {
    if 97 <= c <= 122 {
        (c - 32) as u8
    } else {
        c
    }
}

/// `VRT-` and the first twenty hexadecimal digits of `h`, upper-cased, in
/// four groups of five joined by `-`.
pub open spec fn license_key_bytes(h: Seq<u8>) -> Seq<u8> {
    let g = |k: int| Seq::new(5, |i: int| upper_ascii(h[5 * k + i]));
    seq![86u8, 82u8, 84u8, 45u8] + g(0) + seq![45u8] + g(1) + seq![45u8] + g(2) + seq![45u8] + g(3)
}

/// Byte `m` of the group `g` of a license key, its leading `-` included.
pub open spec fn key_byte(h: Seq<u8>, g: int, m: int) -> u8 {
    if m == 0 {
        45u8
    } else {
        upper_ascii(h[5 * g + m - 1])
    }
}

pub open spec fn as_chars(b: Seq<u8>) -> Seq<char> {
    b.map_values(|x: u8| x as char)
}

/// The license key of a session: derived from the HMAC-SHA256 of its id
/// under `secret`.
pub open spec fn license_key_of(session_id: Seq<u8>, secret: Seq<u8>) -> Seq<char> {
    as_chars(license_key_bytes(hex_lower(hmac_sha256_of(secret, session_id))))
}

proof fn lemma_hex_lower_len(b: Seq<u8>)
    ensures
        hex_lower(b).len() == 2 * b.len(),
        forall|i: int| 0 <= i < hex_lower(b).len() ==> (#[trigger] hex_lower(b)[i]) < 128,
    decreases b.len(),
{
    if b.len() > 0 {
        lemma_hex_lower_len(b.drop_last());
        let init = hex_lower(b.drop_last());
        let h = hex_lower(b);
        assert(hex_digit(b.last() / 16) < 128 && hex_digit(b.last() % 16) < 128);
        assert forall|i: int| 0 <= i < h.len() implies (#[trigger] h[i]) < 128 by {
            if i < init.len() {
                assert(h[i] == init[i]);
            }
        }
    }
}

proof fn lemma_ascii_round_trip(b: Seq<u8>)
    requires
        forall|i: int| 0 <= i < b.len() ==> (#[trigger] b[i]) < 128,
    ensures
        valid_utf8(b),
        decode_utf8(b) == as_chars(b),
{
    let c = as_chars(b);
    assert(is_ascii_chars(c)) by {
        assert forall|i: int| 0 <= i < c.len() implies '\0' <= #[trigger] c[i] <= '\u{7f}' by {
            assert(c[i] == b[i] as char);
        }
    }
    is_ascii_chars_encode_utf8(c);
    assert forall|i: int| 0 <= i < b.len() implies encode_utf8(c)[i] == b[i] by {
        assert(c[i] == b[i] as char);
        assert(c[i] as u8 == encode_utf8(c)[i]);
    }
    assert(encode_utf8(c) =~= b);
    encode_utf8_valid_utf8(c);
    encode_utf8_decode_utf8(c);
}

/// The license key issued for a paid session.
pub fn generate_license_key(session_id: &str, secret: &str) -> (r: String)
    ensures
        r@ == license_key_of(session_id.spec_bytes(), secret.spec_bytes()),
{
    let mac = match crate::trusted::hmac_sha256(secret.as_bytes(), session_id.as_bytes()) {
        Some(m) => m,
        None => Vec::new(),
    };
    let hexed = crate::trusted::hex_encode(mac.as_slice());
    proof {
        lemma_hex_lower_len(mac@);
    }
    let ghost h = hexed@;
    let mut key: Vec<u8> = Vec::new();
    key.push(86u8);
    key.push(82u8);
    key.push(84u8);
    let mut k: usize = 0;
    while k < 4
        invariant
            h == hexed@,
            h.len() == 64,
            forall|i: int| 0 <= i < h.len() ==> (#[trigger] h[i]) < 128,
            k <= 4,
            key@.len() == 3 + 6 * k,
            forall|j: int| 0 <= j < 3 ==> key@[j] == seq![86u8, 82u8, 84u8][j],
            forall|g: int, i: int| 0 <= g < k && 0 <= i < 6 ==> key@[3 + 6 * g + i] == #[trigger] key_byte(h, g, i),
        decreases 4 - k,
    {
        key.push(45u8);
        let mut i: usize = 0;
        while i < 5
            invariant
                h == hexed@,
                h.len() == 64,
                k < 4,
                i <= 5,
                key@.len() == 3 + 6 * k + 1 + i,
                forall|j: int| 0 <= j < 3 ==> key@[j] == seq![86u8, 82u8, 84u8][j],
                forall|g: int, m: int| 0 <= g < k && 0 <= m < 6 ==> key@[3 + 6 * g + m] == #[trigger] key_byte(h, g, m),
                key@[3 + 6 * k] == 45u8,
                forall|m: int| 0 <= m < i ==> key@[3 + 6 * k + 1 + m] == upper_ascii(#[trigger] h[5 * k + m]),
            decreases 5 - i,
        {
            let c = hexed[5 * k + i];
            let u = if c >= 97u8 && c <= 122u8 { c - 32 } else { c };
            key.push(u);
            i = i + 1;
        }
        assert forall|g: int, m: int| 0 <= g < k + 1 && 0 <= m < 6 implies key@[3 + 6 * g + m] == #[trigger] key_byte(h, g, m) by {
            if g == k && m > 0 {
                assert(key@[3 + 6 * k + 1 + (m - 1)] == upper_ascii(h[5 * k + (m - 1)]));
            }
        }
        k = k + 1;
    }
    proof {
        let expected = license_key_bytes(h);
        assert(expected.len() == key@.len());
        assert forall|j: int| 0 <= j < key@.len() implies key@[j] == expected[j] by {
            if j >= 3 {
                let g = (j - 3) / 6;
                let m = (j - 3) % 6;
                assert(j == 3 + 6 * g + m);
                assert(key@[3 + 6 * g + m] == key_byte(h, g, m));
            }
        }
        assert(key@ =~= expected);
        assert forall|i: int| 0 <= i < key@.len() implies (#[trigger] key@[i]) < 128 by {
            if i >= 3 {
                let g = (i - 3) / 6;
                let m = (i - 3) % 6;
                assert(key@[3 + 6 * g + m] == key_byte(h, g, m));
                if m > 0 {
                    assert(h[5 * g + m - 1] < 128);
                }
            }
        }
        lemma_ascii_round_trip(key@);
    }
    match crate::trusted::text_from_utf8(key) {
        Some(s) => s,
        None => String::new(),
    }
}

/// The price id of a plan of the locally signed provider; none for another
/// plan.
pub fn stripe_price_for<'a>(config: &'a StripeConfig, plan_type: &str) -> (r: Option<&'a String>)
    ensures
        plan_type@ == "basic"@ ==> r == Some(&config.price_basic),
        plan_type@ != "basic"@ && plan_type@ == "premium"@ ==> r == Some(&config.price_premium),
        plan_type@ != "basic"@ && plan_type@ != "premium"@ ==> r.is_none(),
{
    if text_eq(plan_type, "basic") {
        Some(&config.price_basic)
    } else if text_eq(plan_type, "premium") {
        Some(&config.price_premium)
    } else {
        None
    }
}

/// The customer of a portal request: present and not empty.
pub fn portal_customer(customer_id: Option<&str>) -> (r: Option<&str>)
    ensures
        r == match customer_id {
            Some(id) => if id@.len() > 0 {
                Some(id)
            } else {
                None
            },
            None => None,
        },
{
    match customer_id {
        Some(id) => if !id.is_empty() {
            Some(id)
        } else {
            None
        },
        None => None,
    }
}

pub open spec fn order_terms(plan: Seq<char>) -> Option<(Seq<char>, Seq<char>)> {
    if plan == "basic"@ {
        Some(("9.00"@, "Veritas Basic \u{2014} Security Modules"@))
    } else if plan == "premium"@ {
        Some(("29.00"@, "Veritas Premium \u{2014} Full Enterprise Arsenal"@))
    } else {
        None
    }
}

/// The amount and description of an order for a plan (`basic` when none is
/// named); none for an unknown plan.
pub fn paypal_order_terms(plan: Option<&str>) -> (r: Option<(&'static str, &'static str)>)
    ensures
        match r {
            Some((amount, description)) => order_terms(match plan {
                Some(p) => p@,
                None => "basic"@,
            }) == Some((amount@, description@)),
            None => order_terms(match plan {
                Some(p) => p@,
                None => "basic"@,
            }).is_none(),
        },
{
    let p = match plan {
        Some(p) => p,
        None => "basic",
    };
    if text_eq(p, "basic") {
        Some(("9.00", "Veritas Basic \u{2014} Security Modules"))
    } else if text_eq(p, "premium") {
        Some(("29.00", "Veritas Premium \u{2014} Full Enterprise Arsenal"))
    } else {
        None
    }
}

/// A link of a created order.
#[derive(Debug, Clone)]
pub struct OrderLink {
    pub rel: Option<String>,
    pub href: Option<String>,
}

pub open spec fn is_approve_link(l: OrderLink) -> bool {
    l.rel is Some && l.rel.unwrap()@ == "approve"@ && l.href is Some
}

/// The address of the first `approve` link that has one.
pub fn approve_link(links: &Vec<OrderLink>) -> (r: Option<String>)
    ensures
        match r {
            Some(href) => exists|i: int|
                0 <= i < links@.len() && is_approve_link(#[trigger] links@[i])
                    && links@[i].href == Some(href)
                    && forall|j: int| 0 <= j < i ==> !is_approve_link(#[trigger] links@[j]),
            None => forall|i: int| 0 <= i < links@.len() ==> !is_approve_link(#[trigger] links@[i]),
        },
{
    let mut i: usize = 0;
    while i < links.len()
        invariant
            i <= links@.len(),
            forall|j: int| 0 <= j < i ==> !is_approve_link(#[trigger] links@[j]),
        decreases links@.len() - i,
    {
        let l = &links[i];
        match &l.rel {
            Some(rel) => if text_eq(rel.as_str(), "approve") {
                match &l.href {
                    Some(href) => {
                        return Some(href.clone());
                    },
                    None => {},
                }
            },
            None => {},
        }
        i = i + 1;
    }
    None
}

/// Whether a capture answered with status `COMPLETED`.
pub fn capture_completed(status: Option<&str>) -> (r: bool)
    ensures
        r == (status is Some && status.unwrap()@ == "COMPLETED"@),
{
    match status {
        Some(s) => text_eq(s, "COMPLETED"),
        None => false,
    }
}

/// The API endpoint that creates orders.
pub fn paypal_orders_url(config: &PayPalConfig) -> (r: String)
    ensures
        r@ == crate::paypal::api_base(config.mode@) + "/v2/checkout/orders"@,
{
    crate::text::joined(config.base_url(), "/v2/checkout/orders")
}

/// The report on a paid session `session_id`: its plan and contact, and the
/// license key that `license_secret` gives it; none for an unpaid session.
pub fn verify_paid_session(session: &CheckoutSession, session_id: &str, license_secret: &str) -> (r: Option<VerifyResponse>)
    ensures
        r.is_some() == crate::stripe::checkout_paid(*session),
        r.is_some() ==> {
            let v = r.unwrap();
            &&& v.valid
            &&& v.plan@ == crate::stripe::checkout_plan(*session)
            &&& v.email@ == session_email(*session)
            &&& v.license_key@ == license_key_of(session_id.spec_bytes(), license_secret.spec_bytes())
        },
{
    let paid = match &session.payment_status {
        Some(p) => text_eq(p.as_str(), "paid"),
        None => false,
    };
    if !paid {
        return None;
    }
    let email = match &session.customer_details {
        Some(d) => match &d.email {
            Some(e) => e.clone(),
            None => match &session.customer_email {
                Some(e) => e.clone(),
                None => String::from_str(UNKNOWN_SESSION_EMAIL),
            },
        },
        None => match &session.customer_email {
            Some(e) => e.clone(),
            None => String::from_str(UNKNOWN_SESSION_EMAIL),
        },
    };
    let plan = match &session.metadata {
        Some(m) => match crate::stripe::metadata_value(m, "plan") {
            Some(p) => p.clone(),
            None => String::from_str(crate::stripe::DEFAULT_PLAN),
        },
        None => String::from_str(crate::stripe::DEFAULT_PLAN),
    };
    let license_key = generate_license_key(session_id, license_secret);
    Some(VerifyResponse { valid: true, plan, email, license_key })
}

/// The answer to a portal request.
#[derive(Debug, Clone)]
pub struct PortalSessionResponse {
    pub url: String,
}

/// The query of a session verification.
#[derive(Debug, Clone)]
pub struct VerifyQuery {
    pub session_id: String,
}

/// The query of an order creation.
#[derive(Debug, Clone)]
pub struct PayPalCheckoutQuery {
    pub plan: Option<String>,
}

/// The query of an order capture: the order id.
#[derive(Debug, Clone)]
pub struct CaptureQuery {
    pub token: String,
}

/// The answer to a health request.
#[derive(Debug, Clone)]
pub struct HealthResponse {
    pub status: String,
    pub stripe_configured: bool,
    pub redis_connected: bool,
    pub timestamp: String,
    pub version: String,
}

/// Whether `needle` occurs in `hay`, as bytes.
pub open spec fn occurs_in(hay: Seq<u8>, needle: Seq<u8>) -> bool {
    exists|i: int| 0 <= i && i + needle.len() <= hay.len() && #[trigger] hay.subrange(i, i + needle.len()) == needle
}

fn matches_at(hay: &[u8], start: usize, needle: &[u8]) -> (r: bool)
    requires
        start + needle@.len() <= hay@.len(),
    ensures
        r == (hay@.subrange(start as int, start + needle@.len()) == needle@),
{
    let n = needle.len();
    let hl = hay.len();
    let ghost window = hay@.subrange(start as int, start + n);
    let mut j: usize = 0;
    while j < n
        invariant
            n == needle@.len(),
            hl == hay@.len(),
            start + n <= hay@.len(),
            window == hay@.subrange(start as int, start + n),
            j <= n,
            window.subrange(0, j as int) == needle@.subrange(0, j as int),
        decreases n - j,
    {
        if hay[start + j] != needle[j] {
            assert(window[j as int] != needle@[j as int]);
            return false;
        }
        assert(window.subrange(0, j + 1) =~= window.subrange(0, j as int).push(window[j as int]));
        assert(needle@.subrange(0, j + 1) =~= needle@.subrange(0, j as int).push(needle@[j as int]));
        j = j + 1;
    }
    assert(window.subrange(0, n as int) =~= window);
    assert(needle@.subrange(0, n as int) =~= needle@);
    true
}

/// Whether `needle` occurs in `hay`.
pub fn contains_text(hay: &str, needle: &str) -> (r: bool)
    ensures
        r == occurs_in(hay.spec_bytes(), needle.spec_bytes()),
{
    let h = hay.as_bytes();
    let n = needle.as_bytes();
    if n.len() > h.len() {
        return false;
    }
    let last = h.len() - n.len();
    let mut i: usize = 0;
    loop
        invariant
            h@ == hay.spec_bytes(),
            n@ == needle.spec_bytes(),
            last == h@.len() - n@.len(),
            i <= last,
            forall|k: int| 0 <= k < i ==> #[trigger] h@.subrange(k, k + n@.len()) != n@,
        ensures
            forall|k: int| 0 <= k <= last ==> #[trigger] h@.subrange(k, k + n@.len()) != n@,
        decreases last - i,
    {
        if matches_at(h, i, n) {
            assert(h@.subrange(i as int, i + n@.len()) == n@);
            return true;
        }
        if i == last {
            break;
        }
        i = i + 1;
    }
    assert(!occurs_in(h@, n@)) by {
        if occurs_in(h@, n@) {
            let k = choose|k: int| 0 <= k && k + n@.len() <= h@.len() && #[trigger] h@.subrange(k, k + n@.len()) == n@;
            assert(k <= last);
        }
    }
    false
}

/// The health report: configured unless the secret key is a placeholder.
pub fn health_report(config: &StripeConfig, redis_connected: bool, timestamp: String) -> (r: HealthResponse)
    ensures
        r.status@ == "operational"@,
        r.stripe_configured == !occurs_in(encode_utf8(config.secret_key@), encode_utf8("placeholder"@)),
        r.redis_connected == redis_connected,
        r.timestamp == timestamp,
        r.version@ == "2.0.0"@,
{
    HealthResponse {
        status: String::from_str("operational"),
        stripe_configured: !contains_text(config.secret_key.as_str(), "placeholder"),
        redis_connected,
        timestamp,
        version: String::from_str("2.0.0"),
    }
}

} // verus!
