use vstd::prelude::*;

use crate::address::Address;

verus! {

/// The instance's storage region: at most one value per identity, looked up
/// by exact key. Records are created or overwritten, never removed.
pub struct InstanceStorage {
    entries: Vec<(Address, u32)>,
    contents: Ghost<Map<Seq<u8>, u32>>,
}

impl View for InstanceStorage {
    type V = Map<Seq<u8>, u32>;

    closed spec fn view(&self) -> Map<Seq<u8>, u32> {
        self.contents@
    }
}

impl InstanceStorage {
    /// The entries hold distinct keys, and they are exactly the records of
    /// the abstract map.
    pub closed spec fn wf(&self) -> bool {
        &&& forall|i: int, j: int|
            0 <= i < j < self.entries@.len() ==> #[trigger] self.entries@[i].0@
                != #[trigger] self.entries@[j].0@
        &&& forall|i: int|
            0 <= i < self.entries@.len() ==> self.contents@.contains_key(
                #[trigger] self.entries@[i].0@,
            ) && self.contents@[self.entries@[i].0@] == self.entries@[i].1
        &&& forall|k: Seq<u8>|
            #[trigger] self.contents@.contains_key(k) ==> exists|i: int|
                0 <= i < self.entries@.len() && #[trigger] self.entries@[i].0@ == k
    }

    /// A storage region with no records.
    pub fn new() -> (r: InstanceStorage)
        ensures
            r.wf(),
            r@ == Map::<Seq<u8>, u32>::empty(),
    {
        InstanceStorage { entries: Vec::new(), contents: Ghost(Map::empty()) }
    }

    /// The position of the entry for `key`, if there is one.
    fn position(&self, key: &Address) -> (r: Option<usize>)
        requires
            self.wf(),
        ensures
            match r {
                Some(i) => i < self.entries@.len() && self.entries@[i as int].0@ == key@,
                None => !self@.contains_key(key@),
            },
    {
        let mut i: usize = 0;
        while i < self.entries.len()
            invariant
                i <= self.entries@.len(),
                forall|j: int| 0 <= j < i ==> self.entries@[j].0@ != key@,
            decreases self.entries@.len() - i,
        {
            if self.entries[i].0.same_as(key) {
                return Some(i);
            }
            i = i + 1;
        }
        None
    }

    /// The value recorded for `key`, or `None` where there is no record.
    pub fn get(&self, key: &Address) -> (r: Option<u32>)
        requires
            self.wf(),
        ensures
            r == (if self@.contains_key(key@) {
                Some(self@[key@])
            } else {
                None
            }),
    {
        match self.position(key) {
            Some(i) => Some(self.entries[i].1),
            None => None,
        }
    }

    /// Records `value` for `key`, replacing any earlier record for it.
    pub fn set(&mut self, key: &Address, value: u32)
        requires
            old(self).wf(),
        ensures
            final(self).wf(),
            final(self)@ == old(self)@.insert(key@, value),
    {
        let ghost before = self.entries@;
        let ghost old_map = self.contents@;
        let pos = self.position(key);
        match pos {
            Some(i) => self.entries.set(i, (key.duplicate(), value)),
            None => self.entries.push((key.duplicate(), value)),
        }
        self.contents = Ghost(old_map.insert(key@, value));
        proof {
            // Each entry is either unchanged or the new record for `key`.
            assert forall|j: int| 0 <= j < self.entries@.len() implies {
                ||| (j < before.len() && #[trigger] self.entries@[j] == before[j] && before[j].0@
                    != key@)
                ||| self.entries@[j].0@ == key@ && self.entries@[j].1 == value
            } by {
                if j < before.len() && pos != Some(j as usize) {
                    if before[j].0@ == key@ {
                        assert(old_map.contains_key(key@));
                    }
                }
            }
            assert forall|k: Seq<u8>| #[trigger]
                self.contents@.contains_key(k) implies exists|j: int|
                0 <= j < self.entries@.len() && #[trigger] self.entries@[j].0@ == k by {
                if k != key@ {
                    let j = choose|j: int| 0 <= j < before.len() && #[trigger] before[j].0@ == k;
                    assert(self.entries@[j].0@ == k);
                } else {
                    match pos {
                        Some(i) => assert(self.entries@[i as int].0@ == k),
                        None => assert(self.entries@[before.len() as int].0@ == k),
                    }
                }
            }
        }
    }
}

} // verus!
