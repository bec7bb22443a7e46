use vstd::prelude::*;

verus! {

use crate::store::{CounterKey, CounterStore};

/// What recording a payment does to the store, as a function of the store
/// and of the amount handed in. The amount does not occur in the body: a
/// payment moves the payment counter by one and nothing else, whatever sum
/// the payment was about.
pub open spec fn payment_recorded(s: CounterStore, amount: i128) -> CounterStore {
    s.incremented(CounterKey::Payment)
}

/// The counter ledger. It keeps an audit trail for a notification bot: one
/// counter of notifications sent and one of payments (tips) received, each
/// under its own key of the store that the caller threads through every
/// operation.
pub struct StellrflowTelegramBot;

impl StellrflowTelegramBot {
    /// Register a notification: move the notification counter up by one and
    /// return the new count, which serves as the record's identifier. The
    /// payment entry is untouched. A caller must not ask once the counter
    /// stands at `u64::MAX`; it never wraps.
    pub fn register_notification(store: &mut CounterStore) -> (count: u64)
        requires
            old(store).count(CounterKey::Notification) < u64::MAX,
        ensures
            count == old(store).count(CounterKey::Notification) + 1,
            *final(store) == old(store).incremented(CounterKey::Notification),
            final(store).count(CounterKey::Notification) == count,
            final(store).entry(CounterKey::Payment) == old(store).entry(CounterKey::Payment),
    {
        store.increment(CounterKey::Notification)
    }

    /// Record a payment (tip): move the payment counter up by one and return
    /// the new count, which serves as the record's identifier. The amount is
    /// accepted but neither stored nor validated — negative, zero and huge
    /// sums all count the same — and the notification entry is untouched. A
    /// caller must not ask once the counter stands at `u64::MAX`; it never
    /// wraps.
    #[allow(unused_variables)]
    pub fn record_payment(store: &mut CounterStore, amount: i128) -> (count: u64)
        requires
            old(store).count(CounterKey::Payment) < u64::MAX,
        ensures
            count == old(store).count(CounterKey::Payment) + 1,
            *final(store) == payment_recorded(*old(store), amount),
            final(store).count(CounterKey::Payment) == count,
            final(store).entry(CounterKey::Notification) == old(store).entry(CounterKey::Notification),
    {
        store.increment(CounterKey::Payment)
    }

    /// Read the notification counter: zero before the first registration,
    /// afterwards the number of successful registrations. A pure read — the
    /// store is borrowed, never changed.
    pub fn get_notification_count(store: &CounterStore) -> (count: u64)
        ensures
            count == store.count(CounterKey::Notification),
    {
        store.read_count(CounterKey::Notification)
    }

    /// Read the payment counter: zero before the first recorded payment,
    /// afterwards the number of payments recorded. A pure read — the store
    /// is borrowed, never changed.
    pub fn get_payment_count(store: &CounterStore) -> (count: u64)
        ensures
            count == store.count(CounterKey::Payment),
    {
        store.read_count(CounterKey::Payment)
    }
}

} // verus!
