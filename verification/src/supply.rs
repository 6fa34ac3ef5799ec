use vstd::prelude::*;

verus! {

/// The sum of all the values of a finite map.
pub open spec fn sum_of<K>(holdings: Map<K, u128>) -> nat
    decreases holdings.dom().len(),
    when holdings.dom().finite()
{
    if holdings.dom().len() == 0 {
        0
    } else {
        let key = holdings.dom().choose();
        holdings[key] as nat + sum_of(holdings.remove(key))
    }
}

/// The value stored under `key`, and zero where there is none.
pub open spec fn held<K>(holdings: Map<K, u128>, key: K) -> u128 {
    if holdings.contains_key(key) {
        holdings[key]
    } else {
        0
    }
}

/// The sum splits into the value of any one key and the sum of the rest.
pub proof fn lemma_sum_remove<K>(holdings: Map<K, u128>, key: K)
    requires
        holdings.dom().finite(),
        holdings.contains_key(key),
    ensures
        sum_of(holdings) == holdings[key] + sum_of(holdings.remove(key)),
    decreases holdings.dom().len(),
{
    let chosen = holdings.dom().choose();
    if chosen != key {
        lemma_sum_remove(holdings.remove(chosen), key);
        lemma_sum_remove(holdings.remove(key), chosen);
        assert(holdings.remove(chosen).remove(key) =~= holdings.remove(key).remove(chosen));
    }
}

/// Rebinding a key changes the sum by the difference between its new value and
/// what it held before.
pub proof fn lemma_sum_insert<K>(holdings: Map<K, u128>, key: K, value: u128)
    requires
        holdings.dom().finite(),
    ensures
        sum_of(holdings.insert(key, value)) == sum_of(holdings) - held(holdings, key) + value,
{
    let rebound = holdings.insert(key, value);
    lemma_sum_remove(rebound, key);
    assert(rebound.remove(key) =~= holdings.remove(key));
    if holdings.contains_key(key) {
        lemma_sum_remove(holdings, key);
    } else {
        assert(holdings.remove(key) =~= holdings);
    }
}

/// No key holds more than the sum of all.
pub proof fn lemma_sum_bounds<K>(holdings: Map<K, u128>, key: K)
    requires
        holdings.dom().finite(),
    ensures
        held(holdings, key) <= sum_of(holdings),
{
    if holdings.contains_key(key) {
        lemma_sum_remove(holdings, key);
    }
}

} // verus!
