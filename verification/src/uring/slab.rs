//! A table that hands out small integer keys.

use vstd::prelude::*;

verus! {

/// Values stored under keys that the table picks. The key of a value that was
/// taken out is free to be picked again.
///
/// No key reaches the table's limit: a table made with `with_limit(n)` only ever
/// uses the keys `0..n`.
#[derive(Debug)]
pub struct Slab<T> {
    slots: Vec<Option<T>>,
    vacant: Vec<usize>,
    live: usize,
    limit: u64,
}

/// The values of `slots` by their index.
spec fn occupied<T>(slots: Seq<Option<T>>) -> Map<usize, T> {
    Map::new(
        |key: usize| key < slots.len() && slots[key as int] is Some,
        |key: usize| slots[key as int]->0,
    )
}

impl<T> View for Slab<T> {
    type V = Map<usize, T>;

    closed spec fn view(&self) -> Map<usize, T> {
        occupied(self.slots@)
    }
}

/// A table without a vacant slot holds as many values as it has slots.
proof fn lemma_full_table<T>(slots: Seq<Option<T>>)
    requires
        slots.len() <= usize::MAX,
        forall|i: int| 0 <= i < slots.len() ==> #[trigger] slots[i] is Some,
    ensures
        occupied(slots).dom().finite(),
        occupied(slots).dom().len() == slots.len(),
    decreases slots.len(),
{
    if slots.len() == 0 {
        assert(occupied(slots).dom() =~= Set::empty());
    } else {
        let init = slots.drop_last();
        assert forall|i: int| 0 <= i < init.len() implies #[trigger] init[i] is Some by {
            assert(slots[i] is Some);
        }
        lemma_full_table(init);
        let last = (slots.len() - 1) as usize;
        assert(slots[last as int] is Some);
        assert(occupied(slots).dom() =~= occupied(init).dom().insert(last));
    }
}

/// A table never holds more values than it has slots.
proof fn lemma_at_most_full<T>(slots: Seq<Option<T>>)
    requires
        slots.len() <= usize::MAX,
    ensures
        occupied(slots).dom().finite(),
        occupied(slots).dom().len() <= slots.len(),
    decreases slots.len(),
{
    if slots.len() == 0 {
        assert(occupied(slots).dom() =~= Set::empty());
    } else {
        let init = slots.drop_last();
        lemma_at_most_full(init);
        let last = (slots.len() - 1) as usize;
        if slots[last as int] is Some {
            assert(occupied(slots).dom() =~= occupied(init).dom().insert(last));
        } else {
            assert(occupied(slots).dom() =~= occupied(init).dom());
        }
    }
}

impl<T> Slab<T> {
    /// The bound below which every key lies.
    pub closed spec fn limit(&self) -> nat {
        self.limit as nat
    }

    /// The table's invariant.
    pub closed spec fn wf(&self) -> bool {
        &&& self.slots@.len() <= self.limit
        &&& self@.dom().finite()
        &&& self.live == self@.dom().len()
        &&& forall|j: int|
            0 <= j < self.vacant@.len() ==> (#[trigger] self.vacant@[j]) < self.slots@.len()
                && self.slots@[self.vacant@[j] as int] is None
        &&& forall|i: int, j: int|
            0 <= i < j < self.vacant@.len() ==> self.vacant@[i] != self.vacant@[j]
        &&& forall|k: int|
            0 <= k < self.slots@.len() && #[trigger] self.slots@[k] is None
                ==> self.vacant@.contains(k as usize)
    }

    /// Every key in use lies below the limit, and the table holds finitely many
    /// values.
    pub proof fn lemma_keys_below_limit(&self)
        requires
            self.wf(),
        ensures
            self@.dom().finite(),
            forall|key: usize| #[trigger] self@.contains_key(key) ==> key < self.limit(),
    {
    }

    /// An empty table whose keys all lie below `limit`.
    pub fn with_limit(limit: u64) -> (slab: Slab<T>)
        ensures
            slab.wf(),
            slab.limit() == limit,
            slab@ == Map::<usize, T>::empty(),
    {
        let slab = Slab { slots: Vec::new(), vacant: Vec::new(), live: 0, limit };
        assert(slab@ =~= Map::<usize, T>::empty());
        slab
    }

    /// The number of values stored.
    pub fn len(&self) -> (n: usize)
        requires
            self.wf(),
        ensures
            n == self@.dom().len(),
    {
        self.live
    }

    /// Stores a value under a key that is not in use.
    pub fn insert(&mut self, value: T) -> (key: usize)
        requires
            old(self).wf(),
            old(self)@.dom().len() < old(self).limit(),
        ensures
            final(self).wf(),
            final(self).limit() == old(self).limit(),
            !old(self)@.contains_key(key),
            key < old(self).limit(),
            final(self)@ == old(self)@.insert(key, value),
    {
        let ghost before = self.slots@;
        let key: usize = match self.vacant.pop() {
            Some(key) => {
                assert(key == old(self).vacant@[old(self).vacant@.len() - 1]);
                self.slots.set(key, Some(value));
                assert forall|k: int|
                    0 <= k < self.slots@.len() && #[trigger] self.slots@[k] is None implies self.vacant@.contains(
                    k as usize,
                ) by {
                    let j = choose|j: int|
                        0 <= j < old(self).vacant@.len() && old(self).vacant@[j] == k as usize;
                    assert(before[k] is None);
                    assert(old(self).vacant@.contains(k as usize));
                    assert(self.vacant@[j] == k as usize);
                }
                key
            },
            None => {
                assert forall|i: int| 0 <= i < before.len() implies #[trigger] before[i] is Some by {
                    if before[i] is None {
                        assert(old(self).vacant@.contains(i as usize));
                    }
                }
                let key: usize = self.slots.len();
                proof {
                    lemma_full_table(before);
                }
                self.slots.push(Some(value));
                key
            },
        };
        assert(self@ =~= old(self)@.insert(key, value));
        let slots: usize = self.slots.len();
        proof {
            lemma_at_most_full(self.slots@);
        }
        assert(self.live < slots);
        self.live = self.live + 1;
        key
    }

    /// Whether a value is stored under `key`.
    pub fn contains(&self, key: usize) -> (b: bool)
        requires
            self.wf(),
        ensures
            b == self@.contains_key(key),
    {
        key < self.slots.len() && self.slots[key].is_some()
    }

    /// The value stored under `key`, if there is one.
    pub fn get(&self, key: usize) -> (value: Option<&T>)
        requires
            self.wf(),
        ensures
            value == if self@.contains_key(key) { Some(&self@[key]) } else { None },
    {
        if key < self.slots.len() {
            self.slots[key].as_ref()
        } else {
            None
        }
    }

    /// Puts another value under a key in use and hands the former one back.
    pub fn replace(&mut self, key: usize, value: T) -> (former: T)
        requires
            old(self).wf(),
            old(self)@.contains_key(key),
        ensures
            final(self).wf(),
            final(self).limit() == old(self).limit(),
            former == old(self)@[key],
            final(self)@ == old(self)@.insert(key, value),
    {
        let mut slot: Option<T> = Some(value);
        std::mem::swap(&mut slot, &mut self.slots[key]);
        assert(self@ =~= old(self)@.insert(key, value));
        slot.unwrap()
    }

    /// Takes the value out from under a key in use.
    pub fn remove(&mut self, key: usize) -> (value: T)
        requires
            old(self).wf(),
            old(self)@.contains_key(key),
        ensures
            final(self).wf(),
            final(self).limit() == old(self).limit(),
            value == old(self)@[key],
            final(self)@ == old(self)@.remove(key),
    {
        let mut slot: Option<T> = None;
        std::mem::swap(&mut slot, &mut self.slots[key]);
        self.vacant.push(key);
        self.live = self.live - 1;
        assert(self@ =~= old(self)@.remove(key));
        assert forall|k: int|
            0 <= k < self.slots@.len() && #[trigger] self.slots@[k] is None implies self.vacant@.contains(
            k as usize,
        ) by {
            if k == key {
                assert(self.vacant@[self.vacant@.len() - 1] == k as usize);
            } else {
                assert(old(self).slots@[k] is None);
                let j = choose|j: int|
                    0 <= j < old(self).vacant@.len() && old(self).vacant@[j] == k as usize;
                assert(self.vacant@[j] == k as usize);
            }
        }
        slot.unwrap()
    }
}

} // verus!
