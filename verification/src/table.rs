use crate::account::{AccountId, Delegation};
use crate::supply::{lemma_sum_insert, sum_of};
use vstd::prelude::*;

verus! {

/// A value that can key a [`Table`]: it is copied freely, and at run time two
/// of them are found to be the same exactly when they are equal.
pub trait Key: Copy + Sized {
    /// Whether `self` and `other` are one key.
    fn same(&self, other: &Self) -> (r: bool)
        ensures
            r == (*self == *other),
    ;
}

impl Key for u128 {
    fn same(&self, other: &u128) -> (r: bool) {
        *self == *other
    }
}

impl Key for AccountId {
    fn same(&self, other: &AccountId) -> (r: bool) {
        *self == *other
    }
}

impl Key for Delegation {
    fn same(&self, other: &Delegation) -> (r: bool) {
        self.owner == other.owner && self.spender == other.spender
    }
}

/// The map that a list of bindings stands for. Where a key is bound more than
/// once, its first binding is the one that counts.
pub open spec fn bindings<K, V>(entries: Seq<(K, V)>) -> Map<K, V>
    decreases entries.len(),
{
    if entries.len() == 0 {
        Map::empty()
    } else {
        bindings(entries.drop_first()).insert(entries[0].0, entries[0].1)
    }
}

/// A list of bindings stands for a map with finitely many keys.
pub proof fn lemma_bindings_finite<K, V>(entries: Seq<(K, V)>)
    ensures
        bindings(entries).dom().finite(),
    decreases entries.len(),
{
    if entries.len() > 0 {
        lemma_bindings_finite(entries.drop_first());
    }
}

/// A key that no binding names is not in the map.
pub proof fn lemma_bindings_absent<K, V>(entries: Seq<(K, V)>, key: K)
    requires
        forall|j: int| 0 <= j < entries.len() ==> entries[j].0 != key,
    ensures
        !bindings(entries).contains_key(key),
    decreases entries.len(),
{
    if entries.len() > 0 {
        let rest = entries.drop_first();
        assert forall|j: int| 0 <= j < rest.len() implies rest[j].0 != key by {
            assert(rest[j] == entries[j + 1]);
        }
        lemma_bindings_absent(rest, key);
    }
}

/// The first binding of a key gives its value in the map.
pub proof fn lemma_bindings_first<K, V>(entries: Seq<(K, V)>, i: int)
    requires
        0 <= i < entries.len(),
        forall|j: int| 0 <= j < i ==> entries[j].0 != entries[i].0,
    ensures
        bindings(entries).contains_key(entries[i].0),
        bindings(entries)[entries[i].0] == entries[i].1,
    decreases entries.len(),
{
    if i > 0 {
        let key = entries[i].0;
        let rest = entries.drop_first();
        assert(rest[i - 1] == entries[i]);
        assert forall|j: int| 0 <= j < i - 1 implies rest[j].0 != key by {
            assert(rest[j] == entries[j + 1]);
        }
        lemma_bindings_first(rest, i - 1);
    }
}

/// Replacing the value in the first binding of a key rebinds that key in the map.
pub proof fn lemma_bindings_update<K, V>(entries: Seq<(K, V)>, i: int, value: V)
    requires
        0 <= i < entries.len(),
        forall|j: int| 0 <= j < i ==> entries[j].0 != entries[i].0,
    ensures
        bindings(entries.update(i, (entries[i].0, value))) == bindings(entries).insert(
            entries[i].0,
            value,
        ),
    decreases entries.len(),
{
    let key = entries[i].0;
    let updated = entries.update(i, (key, value));
    let rest = entries.drop_first();
    if i == 0 {
        assert(updated.drop_first() =~= rest);
        assert(bindings(updated) =~= bindings(entries).insert(key, value));
    } else {
        assert(rest[i - 1] == entries[i]);
        assert forall|j: int| 0 <= j < i - 1 implies rest[j].0 != key by {
            assert(rest[j] == entries[j + 1]);
        }
        lemma_bindings_update(rest, i - 1, value);
        assert(updated.drop_first() =~= rest.update(i - 1, (key, value)));
        assert(entries[0].0 != key);
        assert(bindings(updated) =~= bindings(entries).insert(key, value));
    }
}

/// Appending a binding for a key that has none binds that key in the map.
pub proof fn lemma_bindings_push<K, V>(entries: Seq<(K, V)>, key: K, value: V)
    requires
        forall|j: int| 0 <= j < entries.len() ==> entries[j].0 != key,
    ensures
        bindings(entries.push((key, value))) == bindings(entries).insert(key, value),
    decreases entries.len(),
{
    let pushed = entries.push((key, value));
    if entries.len() == 0 {
        assert(pushed.drop_first() =~= entries);
        assert(bindings(pushed) =~= bindings(entries).insert(key, value));
    } else {
        let rest = entries.drop_first();
        assert forall|j: int| 0 <= j < rest.len() implies rest[j].0 != key by {
            assert(rest[j] == entries[j + 1]);
        }
        lemma_bindings_push(rest, key, value);
        assert(pushed.drop_first() =~= rest.push((key, value)));
        assert(entries[0].0 != key);
        assert(bindings(pushed) =~= bindings(entries).insert(key, value));
    }
}

/// Whether no key is bound twice in a list of bindings.
pub open spec fn distinct_keys<K, V>(entries: Seq<(K, V)>) -> bool {
    forall|i: int, j: int|
        0 <= i < j < entries.len() ==> (#[trigger] entries[i]).0 != (#[trigger] entries[j]).0
}

/// The sum of the values in a list of bindings.
pub open spec fn total_of<K>(entries: Seq<(K, u128)>) -> nat
    decreases entries.len(),
{
    if entries.len() == 0 {
        0
    } else {
        entries[0].1 as nat + total_of(entries.drop_first())
    }
}

/// Where no key is bound twice, the values of the list sum to the sum of the
/// map that it stands for.
pub proof fn lemma_total_of_bindings<K>(entries: Seq<(K, u128)>)
    requires
        distinct_keys(entries),
    ensures
        sum_of(bindings(entries)) == total_of(entries),
    decreases entries.len(),
{
    if entries.len() > 0 {
        let rest = entries.drop_first();
        assert forall|j: int| 0 <= j < rest.len() implies rest[j].0 != entries[0].0 by {
            assert(rest[j] == entries[j + 1]);
        }
        assert forall|i: int, j: int| 0 <= i < j < rest.len() implies (#[trigger] rest[i]).0 != (
        #[trigger] rest[j]).0 by {
            assert(rest[i] == entries[i + 1]);
            assert(rest[j] == entries[j + 1]);
        }
        lemma_total_of_bindings(rest);
        lemma_bindings_absent(rest, entries[0].0);
        lemma_bindings_finite(rest);
        lemma_sum_insert(bindings(rest), entries[0].0, entries[0].1);
    }
}

/// The values of the end of a list sum to no more than those of the whole.
pub proof fn lemma_total_of_suffix<K>(entries: Seq<(K, u128)>, from: int)
    requires
        0 <= from <= entries.len(),
    ensures
        total_of(entries.subrange(from, entries.len() as int)) <= total_of(entries),
    decreases from,
{
    if from == 0 {
        assert(entries.subrange(0, entries.len() as int) =~= entries);
    } else {
        lemma_total_of_suffix(entries.drop_first(), from - 1);
        assert(entries.drop_first().subrange(from - 1, entries.len() - 1) =~= entries.subrange(
            from,
            entries.len() as int,
        ));
    }
}

/// A finite map from keys to values, kept in memory as a list of bindings in
/// which no key occurs twice.
///
/// A key that was never inserted is absent; readers that want a default for
/// absent keys choose it themselves.
pub struct Table<K: Key, V: Copy> {
    entries: Vec<(K, V)>,
}

impl<K: Key, V: Copy> View for Table<K, V> {
    type V = Map<K, V>;

    closed spec fn view(&self) -> Map<K, V> {
        bindings(self.entries@)
    }
}

impl<K: Key, V: Copy> Table<K, V> {
    #[verifier::type_invariant]
    spec fn no_key_twice(self) -> bool {
        distinct_keys(self.entries@)
    }

    /// The table without any binding.
    pub fn new() -> (table: Self)
        ensures
            table@ == Map::<K, V>::empty(),
    {
        Table { entries: Vec::new() }
    }

    /// Every table has finitely many keys.
    pub proof fn lemma_finite(&self)
        ensures
            self@.dom().finite(),
    {
        lemma_bindings_finite(self.entries@);
    }

    /// The position of the first binding of `key`, if it has one.
    fn position(&self, key: &K) -> (at: Option<usize>)
        ensures
            match at {
                Some(i) => {
                    &&& i < self.entries@.len()
                    &&& self.entries@[i as int].0 == *key
                    &&& forall|j: int| 0 <= j < i ==> self.entries@[j].0 != *key
                },
                None => forall|j: int| 0 <= j < self.entries@.len() ==> self.entries@[j].0 != *key,
            },
    {
        let mut i: usize = 0;
        while i < self.entries.len()
            invariant
                i <= self.entries@.len(),
                forall|j: int| 0 <= j < i ==> self.entries@[j].0 != *key,
            decreases self.entries@.len() - i,
        {
            if self.entries[i].0.same(key) {
                return Some(i);
            }
            i += 1;
        }
        None
    }

    /// The value bound to `key`, or `None` where the key is absent.
    pub fn get(&self, key: &K) -> (value: Option<V>)
        ensures
            value == (if self@.contains_key(*key) {
                Some(self@[*key])
            } else {
                None
            }),
    {
        match self.position(key) {
            Some(i) => {
                proof {
                    lemma_bindings_first(self.entries@, i as int);
                }
                Some(self.entries[i].1)
            },
            None => {
                proof {
                    lemma_bindings_absent(self.entries@, *key);
                }
                None
            },
        }
    }

    /// Binds `key` to `value`, in place of any value it was bound to.
    pub fn insert(&mut self, key: K, value: V)
        ensures
            final(self)@ == old(self)@.insert(key, value),
    {
        proof {
            use_type_invariant(&*self);
        }
        let at = self.position(&key);
        let mut entries: Vec<(K, V)> = Vec::new();
        std::mem::swap(&mut entries, &mut self.entries);
        let ghost before = entries@;
        match at {
            Some(i) => {
                proof {
                    lemma_bindings_update(before, i as int, value);
                }
                entries.set(i, (key, value));
                assert forall|a: int, b: int| 0 <= a < b < entries@.len() implies (
                #[trigger] entries@[a]).0 != (#[trigger] entries@[b]).0 by {
                    assert(entries@[a].0 == before[a].0);
                    assert(entries@[b].0 == before[b].0);
                }
            },
            None => {
                proof {
                    lemma_bindings_push(before, key, value);
                }
                entries.push((key, value));
                assert forall|a: int, b: int| 0 <= a < b < entries@.len() implies (
                #[trigger] entries@[a]).0 != (#[trigger] entries@[b]).0 by {
                    assert(entries@[a] == before[a]);
                    if b < before.len() {
                        assert(entries@[b] == before[b]);
                    }
                }
            },
        }
        self.entries = entries;
    }

    /// Removes every binding.
    pub fn clear(&mut self)
        ensures
            final(self)@ == Map::<K, V>::empty(),
    {
        self.entries = Vec::new();
    }

    /// Whether the table has no binding.
    pub fn is_empty(&self) -> (empty: bool)
        ensures
            empty == (self@ == Map::<K, V>::empty()),
    {
        proof {
            if self.entries@.len() > 0 {
                assert(bindings(self.entries@).contains_key(self.entries@[0].0));
            } else {
                assert(bindings(self.entries@) =~= Map::<K, V>::empty());
            }
        }
        self.entries.len() == 0
    }

    /// The bindings of the table as a list, each key once.
    pub fn entries(&self) -> (list: Vec<(K, V)>)
        ensures
            distinct_keys(list@),
            bindings(list@) == self@,
    {
        proof {
            use_type_invariant(self);
        }
        let mut list: Vec<(K, V)> = Vec::new();
        let mut i: usize = 0;
        while i < self.entries.len()
            invariant
                i <= self.entries@.len(),
                list@ == self.entries@.take(i as int),
            decreases self.entries@.len() - i,
        {
            list.push(self.entries[i]);
            proof {
                assert(list@ =~= self.entries@.take(i + 1));
            }
            i += 1;
        }
        proof {
            assert(list@ =~= self.entries@);
        }
        list
    }

    /// The table that a list of bindings stands for, or `None` where the list
    /// binds a key twice.
    pub fn from_entries(list: Vec<(K, V)>) -> (table: Option<Self>)
        ensures
            table is Some <==> distinct_keys(list@),
            table matches Some(t) ==> t@ == bindings(list@),
    {
        let mut i: usize = 0;
        while i < list.len()
            invariant
                i <= list@.len(),
                forall|a: int, b: int|
                    0 <= a < i && a < b < list@.len() ==> (#[trigger] list@[a]).0 != (
                    #[trigger] list@[b]).0,
            decreases list@.len() - i,
        {
            let mut j: usize = i + 1;
            while j < list.len()
                invariant
                    i < list@.len(),
                    i < j <= list@.len(),
                    forall|b: int| i < b < j ==> list@[i as int].0 != (#[trigger] list@[b]).0,
                decreases list@.len() - j,
            {
                if list[i].0.same(&list[j].0) {
                    return None;
                }
                j += 1;
            }
            i += 1;
        }
        Some(Table { entries: list })
    }
}

impl<K: Key> Table<K, u128> {
    /// The sum of all the values of the table, or `None` where it is more than
    /// the largest number.
    pub fn total(&self) -> (total: Option<u128>)
        ensures
            match total {
                Some(sum) => sum == sum_of(self@),
                None => sum_of(self@) > u128::MAX,
            },
    {
        proof {
            use_type_invariant(self);
            lemma_total_of_bindings(self.entries@);
        }
        let mut sum: u128 = 0;
        let mut i: usize = self.entries.len();
        proof {
            assert(self.entries@.subrange(i as int, self.entries@.len() as int) =~= Seq::<
                (K, u128),
            >::empty());
        }
        while i > 0
            invariant
                i <= self.entries@.len(),
                sum == total_of(self.entries@.subrange(i as int, self.entries@.len() as int)),
                sum_of(self@) == total_of(self.entries@),
            decreases i,
        {
            i -= 1;
            proof {
                let tail = self.entries@.subrange(i as int, self.entries@.len() as int);
                assert(tail.drop_first() =~= self.entries@.subrange(
                    i + 1,
                    self.entries@.len() as int,
                ));
                assert(tail[0] == self.entries@[i as int]);
                lemma_total_of_suffix(self.entries@, i as int);
            }
            match sum.checked_add(self.entries[i].1) {
                Some(more) => {
                    sum = more;
                },
                None => {
                    return None;
                },
            }
        }
        proof {
            assert(self.entries@.subrange(0, self.entries@.len() as int) =~= self.entries@);
        }
        Some(sum)
    }
}

} // verus!
