//! A sparse map from keys to amounts, in which a key without an entry holds zero.

use crate::account::AccountId;
use crate::total::amount_at;
use crate::Balance;
use vstd::prelude::*;

verus! {

/// A key of a [`Store`]: a value that can be compared with another.
pub trait StoreKey: Sized {
    /// Whether the two keys are the same key.
    fn same(&self, other: &Self) -> (r: bool)
        ensures
            r == (*self == *other),
    ;
}

impl StoreKey for AccountId {
    fn same(&self, other: &AccountId) -> (r: bool) {
        *self == *other
    }
}

impl StoreKey for (AccountId, AccountId) {
    fn same(&self, other: &(AccountId, AccountId)) -> (r: bool) {
        self.0 == other.0 && self.1 == other.1
    }
}

/// Whether some entry of `entries` has the key `k`.
spec fn has_key<K>(entries: Seq<(K, Balance)>, k: K) -> bool {
    exists|i: int| 0 <= i < entries.len() && (#[trigger] entries[i]).0 == k
}

/// The position of an entry with the key `k`, where there is one.
spec fn position_of<K>(entries: Seq<(K, Balance)>, k: K) -> int {
    choose|i: int| 0 <= i < entries.len() && (#[trigger] entries[i]).0 == k
}

/// No key occurs in two entries.
spec fn keys_distinct<K>(entries: Seq<(K, Balance)>) -> bool {
    forall|i: int, j: int|
        0 <= i < j < entries.len() ==> (#[trigger] entries[i]).0 != (#[trigger] entries[j]).0
}

/// The map that a list of entries stands for.
spec fn entries_map<K>(entries: Seq<(K, Balance)>) -> Map<K, nat> {
    Map::new(|k: K| has_key(entries, k), |k: K| entries[position_of(entries, k)].1 as nat)
}

/// A sparse map from keys to amounts, kept as a list of entries with distinct keys.
pub struct Store<K> {
    entries: Vec<(K, Balance)>,
}

impl<K: StoreKey> Store<K> {
    /// The entries as a map.
    pub closed spec fn view(&self) -> Map<K, nat> {
        entries_map(self.entries@)
    }

    /// Validity: no key has two entries.
    pub closed spec fn inv(&self) -> bool {
        keys_distinct(self.entries@)
    }

    /// A store without entries.
    pub fn new() -> (s: Store<K>)
        ensures
            s.inv(),
            s@ == Map::<K, nat>::empty(),
    {
        Store { entries: Vec::new() }
    }

    /// The position of the entry for `key`, if it has one.
    fn find(&self, key: &K) -> (r: Option<usize>)
        requires
            self.inv(),
        ensures
            match r {
                Some(i) => i < self.entries@.len() && self.entries@[i as int].0 == *key,
                None => !has_key(self.entries@, *key),
            },
    {
        let mut i: usize = 0;
        while i < self.entries.len()
            invariant
                i <= self.entries@.len(),
                forall|j: int| 0 <= j < i ==> (#[trigger] self.entries@[j]).0 != *key,
            decreases self.entries@.len() - i,
        {
            if self.entries[i].0.same(key) {
                return Some(i);
            }
            i += 1;
        }
        None
    }

    /// The amount held for `key`: that of its entry, or zero where it has none.
    pub fn get_or_zero(&self, key: &K) -> (amount: Balance)
        requires
            self.inv(),
        ensures
            amount == amount_at(self@, *key),
    {
        match self.find(key) {
            Some(i) => self.entries[i].1,
            None => 0,
        }
    }

    /// Sets the amount held for `key`, with a new entry where it had none.
    pub fn insert(&mut self, key: K, amount: Balance)
        requires
            old(self).inv(),
        ensures
            final(self).inv(),
            final(self)@ == old(self)@.insert(key, amount as nat),
    {
        let ghost before = self.entries@;
        match self.find(&key) {
            Some(i) => {
                self.entries[i] = (key, amount);
            },
            None => {
                self.entries.push((key, amount));
            },
        }
        proof {
            lemma_entries_written(before, self.entries@, key, amount);
        }
    }
}

/// What a list of entries stands for after `key` was given the amount `amount`,
/// in place where it had an entry and at the end where it had none.
proof fn lemma_entries_written<K>(
    before: Seq<(K, Balance)>,
    after: Seq<(K, Balance)>,
    key: K,
    amount: Balance,
)
    requires
        keys_distinct(before),
        keys_distinct(after),
        ({
            ||| exists|i: int|
                0 <= i < before.len() && before[i].0 == key && after == before.update(
                    i,
                    (key, amount),
                )
            ||| !has_key(before, key) && after == before.push((key, amount))
        }),
    ensures
        entries_map(after) =~= entries_map(before).insert(key, amount as nat),
{
    let want = entries_map(before).insert(key, amount as nat);
    let got = entries_map(after);
    let at = if has_key(before, key) {
        position_of(before, key)
    } else {
        before.len() as int
    };
    assert(after[at].0 == key);
    assert forall|k: K| got.dom().contains(k) <==> want.dom().contains(k) by {
        if k != key {
            if got.dom().contains(k) {
                assert(before[position_of(after, k)].0 == k);
            }
            if want.dom().contains(k) {
                assert(after[position_of(before, k)].0 == k);
            }
        }
    }
    assert forall|k: K| got.dom().contains(k) implies got[k] == want[k] by {
        if k != key {
            assert(before[position_of(after, k)].0 == k);
        }
    }
}

} // verus!
