use vstd::prelude::*;

verus! {

use crate::ledger::payment_recorded;
use crate::store::{lemma_with_entry, CounterKey, CounterStore};

/// The store after `n` successive increments of the counter under `key` —
/// the state a run of `n` successful `register_notification` calls (for the
/// notification key) or `record_payment` calls (for the payment key) leaves
/// behind, since each such call ensures exactly one `incremented` step.
pub open spec fn after_increments(s: CounterStore, key: CounterKey, n: nat) -> CounterStore
    decreases n,
{
    if n == 0 {
        s
    } else {
        after_increments(s, key, (n - 1) as nat).incremented(key)
    }
}

/// Counting law: starting from a store whose counter under `key` reads zero,
/// the counter reads exactly `i` after the `i`-th successful increment, for
/// every `i` up to `n`. Each increment call returns the counter's new value,
/// so the `i`-th call also returns `i`.
pub proof fn lemma_count_after_increments(s: CounterStore, key: CounterKey, n: nat)
    requires
        s.count(key) == 0,
        n <= u64::MAX,
    ensures
        forall|i: nat| i <= n ==> #[trigger] after_increments(s, key, i).count(key) == i,
    decreases n,
{
    if n > 0 {
        lemma_count_after_increments(s, key, (n - 1) as nat);
        let prev = after_increments(s, key, (n - 1) as nat);
        lemma_with_entry(prev, key, (prev.count(key) + 1) as u64);
    }
}

/// Independence law: any number of increments of the counter under `key`
/// leaves the entry under every other key — and so that counter's value —
/// exactly as it was.
pub proof fn lemma_counters_independent(
    s: CounterStore,
    key: CounterKey,
    other: CounterKey,
    n: nat,
)
    requires
        other != key,
    ensures
        after_increments(s, key, n).entry(other) == s.entry(other),
        after_increments(s, key, n).count(other) == s.count(other),
    decreases n,
{
    if n > 0 {
        lemma_counters_independent(s, key, other, (n - 1) as nat);
        let prev = after_increments(s, key, (n - 1) as nat);
        lemma_with_entry(prev, key, (prev.count(key) + 1) as u64);
    }
}

/// Amount-independence law: recording a payment moves the store in a way
/// determined by the old store alone. Two recordings from the same store end
/// in the same store and so return the same new count, whatever their two
/// amounts were — zero, negative or of any magnitude.
pub proof fn lemma_payment_ignores_amount(s: CounterStore, amount1: i128, amount2: i128)
    ensures
        payment_recorded(s, amount1) == payment_recorded(s, amount2),
        payment_recorded(s, amount1).count(CounterKey::Payment) == payment_recorded(
            s,
            amount2,
        ).count(CounterKey::Payment),
{
}

/// Purity law: reading a counter returns a function of the store alone, so
/// any two reads of the same store — in particular two reads with no
/// increment between them — return the same value.
pub proof fn lemma_reads_pure(s: CounterStore, key: CounterKey, first: u64, second: u64)
    requires
        first == s.count(key),
        second == s.count(key),
    ensures
        first == second,
{
}

} // verus!
