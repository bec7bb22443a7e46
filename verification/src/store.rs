use vstd::prelude::*;

verus! {

/// The well-known keys under which the two counters live in a contract
/// instance's persistent key-value store.
#[derive(Clone, Copy, PartialEq, Eq, Structural)]
pub enum CounterKey {
    Notification,
    Payment,
}

/// A contract instance's persistent key-value store, reduced to the two
/// counter entries this ledger owns. An entry is absent until the counter's
/// first increment and afterwards holds the number of successful increments
/// made under its key.
pub struct CounterStore {
    notification: Option<u64>,
    payment: Option<u64>,
}

impl CounterStore {
    /// The raw entry stored under `key`: `None` before the first increment.
    pub closed spec fn entry(self, key: CounterKey) -> Option<u64> {
        match key {
            CounterKey::Notification => self.notification,
            CounterKey::Payment => self.payment,
        }
    }

    /// The value of the counter under `key`, an absent entry reading as zero.
    pub open spec fn count(self, key: CounterKey) -> u64 {
        match self.entry(key) {
            Some(v) => v,
            None => 0,
        }
    }

    /// The store with `value` written under `key`, every other entry untouched.
    pub closed spec fn with_entry(self, key: CounterKey, value: u64) -> CounterStore {
        match key {
            CounterKey::Notification => CounterStore { notification: Some(value), ..self },
            CounterKey::Payment => CounterStore { payment: Some(value), ..self },
        }
    }

    /// The store after one increment of the counter under `key`.
    pub open spec fn incremented(self, key: CounterKey) -> CounterStore {
        self.with_entry(key, (self.count(key) + 1) as u64)
    }

    /// A fresh store, as a newly deployed contract instance has it: both
    /// entries absent, so both counters read zero.
    pub fn new() -> (s: CounterStore)
        ensures
            forall|k: CounterKey| #[trigger] s.entry(k) is None,
            forall|k: CounterKey| #[trigger] s.count(k) == 0,
    {
        CounterStore { notification: None, payment: None }
    }

    /// A store holding the two entries given, for picking persisted state
    /// back up from wherever it was kept.
    pub fn from_entries(notification: Option<u64>, payment: Option<u64>) -> (s: CounterStore)
        ensures
            s.entry(CounterKey::Notification) == notification,
            s.entry(CounterKey::Payment) == payment,
    {
        CounterStore { notification, payment }
    }

    /// Read the raw entry under `key`, for persisting the store back out.
    pub fn lookup(&self, key: CounterKey) -> (r: Option<u64>)
        ensures
            r == self.entry(key),
    {
        match key {
            CounterKey::Notification => self.notification,
            CounterKey::Payment => self.payment,
        }
    }

    /// Read the counter under `key`, an absent entry reading as zero.
    pub fn read_count(&self, key: CounterKey) -> (r: u64)
        ensures
            r == self.count(key),
    {
        match self.lookup(key) {
            Some(v) => v,
            None => 0,
        }
    }

    /// Increment the counter under `key` by exactly one, store the new value
    /// under that key, and return it; the entry under every other key is
    /// untouched. A counter that has reached `u64::MAX` cannot grow further:
    /// rather than wrap around silently, the ledger refuses such a store up
    /// front, so a caller must check before asking.
    pub fn increment(&mut self, key: CounterKey) -> (r: u64)
        requires
            old(self).count(key) < u64::MAX,
        ensures
            r == old(self).count(key) + 1,
            *final(self) == old(self).incremented(key),
            final(self).count(key) == r,
            final(self).entry(key) == Some(r),
            forall|k: CounterKey| k != key ==> #[trigger] final(self).entry(k) == old(self).entry(k),
    {
        let v: u64 = self.read_count(key) + 1;
        match key {
            CounterKey::Notification => {
                self.notification = Some(v);
            }
            CounterKey::Payment => {
                self.payment = Some(v);
            }
        }
        v
    }
}

/// Writing a value under one key stores exactly that value there and leaves
/// the entry under every other key unchanged.
pub proof fn lemma_with_entry(s: CounterStore, key: CounterKey, value: u64)
    ensures
        s.with_entry(key, value).entry(key) == Some(value),
        forall|k: CounterKey| k != key ==> #[trigger] s.with_entry(key, value).entry(k) == s.entry(k),
{
}

} // verus!
