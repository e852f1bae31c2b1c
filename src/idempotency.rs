use vstd::prelude::*;
use crate::keyed::KeyedStore;

verus! {

/// How a notification was resolved.
#[derive(Debug, Clone)]
pub enum EventResult {
    Success { user_id: u128, plan: String },
    Failed { error: String },
    Duplicate,
}

/// The record kept for a resolved notification; `processed_at` is in Unix
/// seconds.
#[derive(Debug, Clone)]
pub struct ProcessedEvent {
    pub event_id: String,
    pub processed_at: i64,
    pub result: EventResult,
}

impl EventResult {
    pub fn duplicate(&self) -> (r: Self)
        ensures
            r == *self,
    {
        match self {
            EventResult::Success { user_id, plan } => EventResult::Success { user_id: *user_id, plan: plan.clone() },
            EventResult::Failed { error } => EventResult::Failed { error: error.clone() },
            EventResult::Duplicate => EventResult::Duplicate,
        }
    }
}

impl ProcessedEvent {
    pub fn duplicate(&self) -> (r: Self)
        ensures
            r == *self,
    {
        ProcessedEvent {
            event_id: self.event_id.clone(),
            processed_at: self.processed_at,
            result: self.result.duplicate(),
        }
    }
}

/// The key under which an external cache keeps the record of notification
/// `id` from `provider`: `<provider>_event:<id>`.
pub fn ledger_key(provider: &str, id: &str) -> (r: String)
    ensures
        r@ == provider@ + "_event:"@ + id@,
{
    let mut r = String::from_str(provider);
    r.append("_event:");
    r.append(id);
    r
}

/// The notifications resolved so far, keyed by notification id.
pub struct IdempotencyStore {
    processed_events_fallback: KeyedStore<ProcessedEvent>,
}

impl IdempotencyStore {
    pub closed spec fn view(&self) -> Map<Seq<char>, ProcessedEvent> {
        self.processed_events_fallback.view()
    }

    pub closed spec fn wf(&self) -> bool {
        self.processed_events_fallback.wf()
    }

    pub fn new() -> (r: Self)
        ensures
            r.wf(),
            r@ == Map::<Seq<char>, ProcessedEvent>::empty(),
    {
        IdempotencyStore { processed_events_fallback: KeyedStore::new() }
    }

    /// Whether notification `event_id` has been resolved before.
    pub fn is_processed(&self, event_id: &str) -> (r: bool)
        requires
            self.wf(),
        ensures
            r == self@.contains_key(event_id@),
    {
        self.processed_events_fallback.contains(event_id)
    }

    /// The record of notification `event_id`, if it has one.
    pub fn record(&self, event_id: &str) -> (r: Option<ProcessedEvent>)
        requires
            self.wf(),
        ensures
            r == self@.get(event_id@),
    {
        match self.processed_events_fallback.get(event_id) {
            Some(p) => Some(p.duplicate()),
            None => None,
        }
    }

    /// Records how notification `event_id` was resolved at time `now`.
    pub fn mark_processed_at(&mut self, event_id: String, result: EventResult, now: i64)
        requires
            old(self).wf(),
        ensures
            final(self).wf(),
            final(self)@ == old(self)@.insert(
                event_id@,
                ProcessedEvent { event_id: event_id, processed_at: now, result: result },
            ),
    {
        let key = event_id.clone();
        self.processed_events_fallback.insert(key, ProcessedEvent { event_id, processed_at: now, result });
    }

    /// Records how notification `event_id` was resolved, at the current time.
    pub fn mark_processed(&mut self, event_id: String, result: EventResult)
        requires
            old(self).wf(),
        ensures
            final(self).wf(),
            final(self)@.dom() == old(self)@.dom().insert(event_id@),
            final(self)@[event_id@].event_id == event_id,
            final(self)@[event_id@].result == result,
            forall|k: Seq<char>| k != event_id@ && old(self)@.contains_key(k) ==> #[trigger] final(self)@[k] == old(self)@[k],
    {
        let now = crate::trusted::unix_now();
        self.mark_processed_at(event_id, result, now);
    }
}

} // verus!
