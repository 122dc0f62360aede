//! Stored tables: values kept under a number, and scores kept under an address.

use crate::address::Address;
use std::collections::BTreeMap;
use vstd::prelude::*;

verus! {

/// What `table` holds under `key`, if anything.
pub open spec fn lookup<K, T>(table: Map<K, T>, key: K) -> Option<T> {
    if table.contains_key(key) {
        Some(table[key])
    } else {
        None
    }
}

/// Values kept under a milestone index or a proposal number.
#[derive(Clone, Debug)]
pub struct Slots<T> {
    pub entries: BTreeMap<u32, T>,
}

impl<T> View for Slots<T> {
    type V = Map<u32, T>;

    open spec fn view(&self) -> Map<u32, T> {
        self.entries@
    }
}

impl<T: Copy> Slots<T> {
    /// A table that holds nothing.
    pub fn new() -> (r: Self)
        ensures
            r@ == Map::<u32, T>::empty(),
    {
        Slots { entries: BTreeMap::new() }
    }

    /// What is held under `key`.
    pub fn get(&self, key: u32) -> (r: Option<T>)
        ensures
            r == lookup(self@, key),
    {
        match self.entries.get(&key) {
            Some(value) => Some(*value),
            None => None,
        }
    }

    /// Holds `value` under `key` from now on.
    pub fn set(&mut self, key: u32, value: T)
        ensures
            final(self)@ == old(self)@.insert(key, value),
    {
        self.entries.insert(key, value);
    }

    /// Holds nothing under `key` from now on.
    pub fn remove(&mut self, key: u32)
        ensures
            final(self)@ == old(self)@.remove(key),
    {
        self.entries.remove(&key);
        assert(self@ =~= old(self)@.remove(key));
    }
}

/// Scores kept under an address. Where an address occurs twice the first
/// entry counts.
#[derive(Clone, Debug)]
pub struct Scores {
    pub entries: Vec<(Address, u32)>,
}

/// The table that a list of entries stands for.
pub open spec fn scores_of(entries: Seq<(Address, u32)>) -> Map<Address, u32>
    decreases entries.len(),
{
    if entries.len() == 0 {
        Map::empty()
    } else {
        scores_of(entries.drop_first()).insert(entries[0].0, entries[0].1)
    }
}

impl View for Scores {
    type V = Map<Address, u32>;

    open spec fn view(&self) -> Map<Address, u32> {
        scores_of(self.entries@)
    }
}

proof fn lemma_absent(entries: Seq<(Address, u32)>, address: Address)
    requires
        forall|i: int| 0 <= i < entries.len() ==> entries[i].0 != address,
    ensures
        !scores_of(entries).contains_key(address),
    decreases entries.len(),
{
    if entries.len() > 0 {
        assert forall|i: int| 0 <= i < entries.drop_first().len() implies entries.drop_first()[i].0
            != address by {
            assert(entries[i + 1].0 != address);
        }
        lemma_absent(entries.drop_first(), address);
    }
}

proof fn lemma_first(entries: Seq<(Address, u32)>, at: int, score: u32)
    requires
        0 <= at < entries.len(),
        forall|i: int| 0 <= i < at ==> entries[i].0 != entries[at].0,
    ensures
        scores_of(entries).contains_key(entries[at].0),
        scores_of(entries)[entries[at].0] == entries[at].1,
        scores_of(entries.update(at, (entries[at].0, score))) == scores_of(entries).insert(
            entries[at].0,
            score,
        ),
    decreases at,
{
    let updated = entries.update(at, (entries[at].0, score));
    if at == 0 {
        assert(updated.drop_first() =~= entries.drop_first());
        assert(scores_of(updated) =~= scores_of(entries).insert(entries[0].0, score));
    } else {
        let rest = entries.drop_first();
        assert forall|i: int| 0 <= i < at - 1 implies (#[trigger] rest[i]).0 != rest[at - 1].0 by {
            assert(entries[i + 1].0 != entries[at].0);
        }
        lemma_first(rest, at - 1, score);
        assert(updated.drop_first() =~= rest.update(at - 1, (entries[at].0, score)));
        assert(entries[0].0 != entries[at].0);
        assert(scores_of(updated) =~= scores_of(entries).insert(entries[at].0, score));
    }
}

proof fn lemma_appended(entries: Seq<(Address, u32)>, address: Address, score: u32)
    requires
        forall|i: int| 0 <= i < entries.len() ==> entries[i].0 != address,
    ensures
        scores_of(entries.push((address, score))) == scores_of(entries).insert(address, score),
    decreases entries.len(),
{
    let longer = entries.push((address, score));
    if entries.len() == 0 {
        assert(longer.drop_first() =~= entries);
    } else {
        let rest = entries.drop_first();
        assert forall|i: int| 0 <= i < rest.len() implies rest[i].0 != address by {
            assert(entries[i + 1].0 != address);
        }
        lemma_appended(rest, address, score);
        assert(longer.drop_first() =~= rest.push((address, score)));
        assert(entries[0].0 != address);
        assert(scores_of(longer) =~= scores_of(entries).insert(address, score));
    }
}

impl Scores {
    /// A table that holds nothing.
    pub fn new() -> (r: Self)
        ensures
            r@ == Map::<Address, u32>::empty(),
    {
        Scores { entries: Vec::new() }
    }

    /// Where `address` first occurs, or the length where it does not.
    fn find(&self, address: Address) -> (r: usize)
        ensures
            r <= self.entries@.len(),
            forall|i: int| 0 <= i < r ==> self.entries@[i].0 != address,
            r < self.entries@.len() ==> self.entries@[r as int].0 == address,
    {
        let mut at: usize = 0;
        while at < self.entries.len()
            invariant
                at <= self.entries@.len(),
                forall|i: int| 0 <= i < at ==> self.entries@[i].0 != address,
            decreases self.entries@.len() - at,
        {
            if self.entries[at].0 == address {
                return at;
            }
            at = at + 1;
        }
        at
    }

    /// The score of `address`.
    pub fn get(&self, address: Address) -> (r: Option<u32>)
        ensures
            r == lookup(self@, address),
    {
        let at: usize = self.find(address);
        if at < self.entries.len() {
            proof {
                lemma_first(self.entries@, at as int, 0);
            }
            Some(self.entries[at].1)
        } else {
            proof {
                lemma_absent(self.entries@, address);
            }
            None
        }
    }

    /// Gives `address` the score `score`.
    pub fn set(&mut self, address: Address, score: u32)
        ensures
            final(self)@ == old(self)@.insert(address, score),
    {
        let at: usize = self.find(address);
        if at < self.entries.len() {
            proof {
                lemma_first(self.entries@, at as int, score);
            }
            self.entries.set(at, (address, score));
        } else {
            proof {
                lemma_appended(self.entries@, address, score);
            }
            self.entries.push((address, score));
        }
    }
}

} // verus!
