use vstd::prelude::*;
use crate::keyed::KeyedStore;
use crate::text::text_eq;

verus! {

/// A subscriber's plan.
#[derive(Debug, Clone, Copy, PartialEq, Eq, Structural)]
pub enum SubscriptionPlan {
    Free,
    Basic { monthly: bool },
    Premium { monthly: bool },
}

/// Where a subscriber stands in the lifecycle.
#[derive(Debug, Clone, Copy, PartialEq, Eq, Structural)]
pub enum SubscriptionStatus {
    Active,
    Trialing,
    PastDue,
    Canceled,
    Unpaid,
    Incomplete,
}

/// A subscriber's record, keyed by contact email. Times are Unix seconds.
#[derive(Debug, Clone)]
pub struct UserSubscription {
    pub user_id: u128,
    pub email: String,
    pub stripe_customer_id: Option<String>,
    pub stripe_subscription_id: Option<String>,
    pub plan: SubscriptionPlan,
    pub status: SubscriptionStatus,
    pub activated_at: i64,
    pub current_period_end: Option<i64>,
}

/// The plan that a plan key names; an unknown key names the free plan.
pub open spec fn plan_named(name: Seq<char>) -> SubscriptionPlan {
    if name == "basic"@ || name == "basic_monthly"@ {
        SubscriptionPlan::Basic { monthly: true }
    } else if name == "basic_annual"@ {
        SubscriptionPlan::Basic { monthly: false }
    } else if name == "premium"@ || name == "premium_monthly"@ {
        SubscriptionPlan::Premium { monthly: true }
    } else if name == "premium_annual"@ {
        SubscriptionPlan::Premium { monthly: false }
    } else {
        SubscriptionPlan::Free
    }
}

/// The status that a provider's subscription status text stands for; an
/// unrecognised text counts as active.
pub open spec fn status_named(s: Seq<char>) -> SubscriptionStatus {
    if s == "active"@ {
        SubscriptionStatus::Active
    } else if s == "past_due"@ {
        SubscriptionStatus::PastDue
    } else if s == "canceled"@ {
        SubscriptionStatus::Canceled
    } else if s == "unpaid"@ {
        SubscriptionStatus::Unpaid
    } else if s == "trialing"@ {
        SubscriptionStatus::Trialing
    } else if s == "incomplete"@ {
        SubscriptionStatus::Incomplete
    } else {
        SubscriptionStatus::Active
    }
}

pub fn plan_from_name(name: &str) -> (r: SubscriptionPlan)
    ensures
        r == plan_named(name@),
{
    if text_eq(name, "basic") || text_eq(name, "basic_monthly") {
        SubscriptionPlan::Basic { monthly: true }
    } else if text_eq(name, "basic_annual") {
        SubscriptionPlan::Basic { monthly: false }
    } else if text_eq(name, "premium") || text_eq(name, "premium_monthly") {
        SubscriptionPlan::Premium { monthly: true }
    } else if text_eq(name, "premium_annual") {
        SubscriptionPlan::Premium { monthly: false }
    } else {
        SubscriptionPlan::Free
    }
}

pub fn status_from_provider(s: &str) -> (r: SubscriptionStatus)
    ensures
        r == status_named(s@),
{
    if text_eq(s, "active") {
        SubscriptionStatus::Active
    } else if text_eq(s, "past_due") {
        SubscriptionStatus::PastDue
    } else if text_eq(s, "canceled") {
        SubscriptionStatus::Canceled
    } else if text_eq(s, "unpaid") {
        SubscriptionStatus::Unpaid
    } else if text_eq(s, "trialing") {
        SubscriptionStatus::Trialing
    } else if text_eq(s, "incomplete") {
        SubscriptionStatus::Incomplete
    } else {
        SubscriptionStatus::Active
    }
}

pub fn copy_text_option(o: &Option<String>) -> (r: Option<String>)
    ensures
        r == *o,
{
    match o {
        Some(s) => Some(s.clone()),
        None => None,
    }
}

impl UserSubscription {
    /// A copy equal to this record.
    pub fn duplicate(&self) -> (r: Self)
        ensures
            r == *self,
    {
        UserSubscription {
            user_id: self.user_id,
            email: self.email.clone(),
            stripe_customer_id: copy_text_option(&self.stripe_customer_id),
            stripe_subscription_id: copy_text_option(&self.stripe_subscription_id),
            plan: self.plan,
            status: self.status,
            activated_at: self.activated_at,
            current_period_end: self.current_period_end,
        }
    }
}

/// The record `s` with its status replaced.
pub open spec fn with_status(s: UserSubscription, status: SubscriptionStatus) -> UserSubscription {
    UserSubscription { status, ..s }
}

/// The records after the status of the record for `email`, if any, is set.
pub open spec fn status_change(
    m: Map<Seq<char>, UserSubscription>,
    email: Seq<char>,
    status: SubscriptionStatus,
) -> Map<Seq<char>, UserSubscription> {
    if m.contains_key(email) {
        m.insert(email, with_status(m[email], status))
    } else {
        m
    }
}

/// The record that an activation writes.
pub open spec fn activated_record(
    email: Seq<char>,
    customer: Option<String>,
    subscription: Option<String>,
    plan_name: Seq<char>,
    user_id: u128,
    now: i64,
    r: UserSubscription,
) -> bool {
    &&& r.user_id == user_id
    &&& r.email@ == email
    &&& r.stripe_customer_id == customer
    &&& r.stripe_subscription_id == subscription
    &&& r.plan == plan_named(plan_name)
    &&& r.status == SubscriptionStatus::Active
    &&& r.activated_at == now
    &&& r.current_period_end.is_none()
}

/// The subscriber records, keyed by contact email.
pub struct SubscriptionManager {
    subscriptions: KeyedStore<UserSubscription>,
}

impl SubscriptionManager {
    pub closed spec fn view(&self) -> Map<Seq<char>, UserSubscription> {
        self.subscriptions.view()
    }

    pub closed spec fn wf(&self) -> bool {
        self.subscriptions.wf()
    }

    pub fn new() -> (r: Self)
        ensures
            r.wf(),
            r@ == Map::<Seq<char>, UserSubscription>::empty(),
    {
        SubscriptionManager { subscriptions: KeyedStore::new() }
    }

    /// Creates or overwrites the record for `email`, active on the plan that
    /// `plan_name` names, with the identifier and time given.
    pub fn activate_with(
        &mut self,
        email: &str,
        stripe_customer_id: Option<String>,
        stripe_subscription_id: Option<String>,
        plan_name: &str,
        user_id: u128,
        now: i64,
    ) -> (r: UserSubscription)
        requires
            old(self).wf(),
        ensures
            final(self).wf(),
            activated_record(email@, stripe_customer_id, stripe_subscription_id, plan_name@, user_id, now, r),
            final(self)@ == old(self)@.insert(email@, r),
    {
        let subscription = UserSubscription {
            user_id,
            email: String::from_str(email),
            stripe_customer_id,
            stripe_subscription_id,
            plan: plan_from_name(plan_name),
            status: SubscriptionStatus::Active,
            activated_at: now,
            current_period_end: None,
        };
        self.subscriptions.insert(String::from_str(email), subscription.duplicate());
        subscription
    }

    /// Creates or overwrites the record for `email`, active on the plan that
    /// `plan_name` names, with a fresh identifier and the current time.
    pub fn activate_subscription(
        &mut self,
        email: &str,
        stripe_customer_id: Option<String>,
        stripe_subscription_id: Option<String>,
        plan_name: &str,
    ) -> (r: UserSubscription)
        requires
            old(self).wf(),
        ensures
            final(self).wf(),
            activated_record(email@, stripe_customer_id, stripe_subscription_id, plan_name@, r.user_id, r.activated_at, r),
            final(self)@ == old(self)@.insert(email@, r),
    {
        let user_id = crate::trusted::random_uuid();
        let now = crate::trusted::unix_now();
        self.activate_with(email, stripe_customer_id, stripe_subscription_id, plan_name, user_id, now)
    }

    /// Sets the status of the record for `email`; false, and no change, when
    /// there is none. Any status may follow any other.
    pub fn update_status(&mut self, email: &str, status: SubscriptionStatus) -> (r: bool)
        requires
            old(self).wf(),
        ensures
            final(self).wf(),
            r == old(self)@.contains_key(email@),
            final(self)@ == status_change(old(self)@, email@, status),
    {
        match self.subscriptions.get(email) {
            Some(current) => {
                let mut updated = current.duplicate();
                updated.status = status;
                self.subscriptions.insert(String::from_str(email), updated);
                true
            },
            None => false,
        }
    }

    pub fn get_by_email(&self, email: &str) -> (r: Option<UserSubscription>)
        requires
            self.wf(),
        ensures
            r == self@.get(email@),
    {
        match self.subscriptions.get(email) {
            Some(s) => Some(s.duplicate()),
            None => None,
        }
    }

    /// Marks the record for `email` canceled; false when there is none.
    pub fn cancel_subscription(&mut self, email: &str) -> (r: bool)
        requires
            old(self).wf(),
        ensures
            final(self).wf(),
            r == old(self)@.contains_key(email@),
            final(self)@ == status_change(old(self)@, email@, SubscriptionStatus::Canceled),
    {
        self.update_status(email, SubscriptionStatus::Canceled)
    }
}

} // verus!
