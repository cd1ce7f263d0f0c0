//! The per-adapter discovery slots: the state machine that grants at
//! most one discovery session per adapter name. The map is the only
//! mutable shared state of the library; the surrounding runtime holds
//! it under a mutex and serializes the check-and-insert, so the
//! transitions proved here are the only ones that can occur.

use vstd::prelude::*;
use vstd::string::*;
use crate::text::str_eq;
use crate::Error;

verus! {

/// The state of one adapter's discovery slot.
#[derive(Clone, Copy, Debug, PartialEq, Eq, Structural)]
pub enum SlotState {
    /// A session holds the slot.
    Active,
    /// The session's completion signal has fired; the slot is stale
    /// and may be taken over.
    Finished,
}

/// The map from adapter name to its discovery slot.
pub struct DiscoverySlots {
    slots: Vec<(String, SlotState)>,
}

/// The slot map denoted by a list of entries, later entries winning.
pub open spec fn slots_map(s: Seq<(String, SlotState)>) -> Map<Seq<char>, SlotState>
    decreases s.len(),
{
    if s.len() == 0 {
        Map::empty()
    } else {
        slots_map(s.drop_last()).insert(s.last().0@, s.last().1)
    }
}

/// A key is in the map exactly when some entry carries it.
proof fn lemma_slots_map_contains(s: Seq<(String, SlotState)>, k: Seq<char>)
    ensures
        slots_map(s).contains_key(k) <==> exists|i: int| 0 <= i < s.len() && s[i].0@ == k,
    decreases s.len(),
{
    if s.len() > 0 {
        lemma_slots_map_contains(s.drop_last(), k);
        if slots_map(s).contains_key(k) {
            if s.last().0@ == k {
                assert(s[s.len() - 1].0@ == k);
            } else {
                let i = choose|i: int| 0 <= i < s.drop_last().len() && s.drop_last()[i].0@ == k;
                assert(s[i].0@ == k);
            }
        }
        if exists|i: int| 0 <= i < s.len() && s[i].0@ == k {
            let i = choose|i: int| 0 <= i < s.len() && s[i].0@ == k;
            if i < s.len() - 1 {
                assert(s.drop_last()[i].0@ == k);
            }
        }
    }
}

/// With distinct keys, the map agrees with any entry that carries the
/// key.
proof fn lemma_slots_map_index(s: Seq<(String, SlotState)>, i: int)
    requires
        forall|a: int, b: int| 0 <= a < b < s.len() ==> s[a].0@ != s[b].0@,
        0 <= i < s.len(),
    ensures
        slots_map(s).contains_key(s[i].0@),
        slots_map(s)[s[i].0@] == s[i].1,
    decreases s.len(),
{
    if i == s.len() - 1 {
    } else {
        assert(s.drop_last()[i] == s[i]);
        lemma_slots_map_index(s.drop_last(), i);
        assert(s.last().0@ != s[i].0@);
    }
}

impl View for DiscoverySlots {
    type V = Map<Seq<char>, SlotState>;

    closed spec fn view(&self) -> Map<Seq<char>, SlotState> {
        slots_map(self.slots@)
    }
}

impl DiscoverySlots {
    /// Entries carry distinct adapter names: each adapter has at most
    /// one slot, so at most one session.
    pub closed spec fn wf(&self) -> bool {
        forall|a: int, b: int| 0 <= a < b < self.slots@.len() ==> self.slots@[a].0@
            != self.slots@[b].0@
    }

    /// An empty slot map: no adapter has a session.
    pub fn new() -> (r: DiscoverySlots)
        ensures
            r.wf(),
            r@ == Map::<Seq<char>, SlotState>::empty(),
    {
        DiscoverySlots { slots: Vec::new() }
    }

    /// The index of the entry for `name`, if one exists.
    fn find(&self, name: &str) -> (r: Option<usize>)
        ensures
            r matches Some(i) ==> i < self.slots@.len() && self.slots@[i as int].0@ == name@,
            r is None ==> forall|j: int| 0 <= j < self.slots@.len() ==> self.slots@[j].0@
                != name@,
    {
        let n = self.slots.len();
        let mut i: usize = 0;
        while i < n
            invariant
                i <= n,
                n == self.slots@.len(),
                forall|j: int| 0 <= j < i ==> self.slots@[j].0@ != name@,
            decreases n - i,
        {
            if str_eq(self.slots[i].0.as_str(), name) {
                return Some(i);
            }
            i += 1;
        }
        None
    }

    /// The slot state of an adapter, if it has one.
    pub fn state_of(&self, name: &str) -> (r: Option<SlotState>)
        requires
            self.wf(),
        ensures
            match r {
                Some(st) => self@.contains_key(name@) && self@[name@] == st,
                None => !self@.contains_key(name@),
            },
    {
        match self.find(name) {
            Some(i) => {
                proof {
                    lemma_slots_map_index(self.slots@, i as int);
                }
                Some(self.slots[i].1)
            },
            None => {
                proof {
                    lemma_slots_map_contains(self.slots@, name@);
                }
                None
            },
        }
    }

    /// Tries to take the adapter's slot for a new session. Fails with
    /// `AnotherDiscoveryInProgress`, leaving every slot unchanged,
    /// exactly when a session already holds the slot; a missing or
    /// finished slot is taken over.
    pub fn try_acquire(&mut self, name: &str) -> (r: Result<(), Error>)
        requires
            old(self).wf(),
        ensures
            final(self).wf(),
            r is Err <==> (old(self)@.contains_key(name@) && old(self)@[name@]
                == SlotState::Active),
            r matches Err(e) ==> e == Error::AnotherDiscoveryInProgress && final(self)@ == old(
                self,
            )@ && *final(self) == *old(self),
            r is Ok ==> final(self)@ == old(self)@.insert(name@, SlotState::Active),
    {
        match self.find(name) {
            Some(i) => {
                proof {
                    lemma_slots_map_index(self.slots@, i as int);
                }
                match self.slots[i].1 {
                    SlotState::Active => Err(Error::AnotherDiscoveryInProgress),
                    SlotState::Finished => {
                        let ghost prev = self.slots@;
                        self.slots[i] = (String::from_str(name), SlotState::Active);
                        proof {
                            lemma_update_entry(prev, self.slots@, i as int, name@);
                        }
                        Ok(())
                    },
                }
            },
            None => {
                let ghost prev = self.slots@;
                self.slots.push((String::from_str(name), SlotState::Active));
                proof {
                    assert(self.slots@.drop_last() =~= prev);
                    lemma_slots_map_contains(prev, name@);
                }
                Ok(())
            },
        }
    }

    /// Records that the session's completion signal fired: the
    /// adapter's slot, if any, becomes stale. Other slots keep their
    /// state.
    pub fn finish(&mut self, name: &str)
        requires
            old(self).wf(),
        ensures
            final(self).wf(),
            old(self)@.contains_key(name@) ==> final(self)@ == old(self)@.insert(
                name@,
                SlotState::Finished,
            ),
            !old(self)@.contains_key(name@) ==> final(self)@ == old(self)@ && *final(self)
                == *old(self),
    {
        match self.find(name) {
            Some(i) => {
                proof {
                    lemma_slots_map_index(self.slots@, i as int);
                }
                let ghost prev = self.slots@;
                self.slots[i] = (String::from_str(name), SlotState::Finished);
                proof {
                    lemma_update_entry(prev, self.slots@, i as int, name@);
                }
            },
            None => {
                proof {
                    lemma_slots_map_contains(self.slots@, name@);
                }
            },
        }
    }
}

/// Replacing the entry at `i` with one carrying the same key maps to a
/// plain map update, and keeps the keys distinct.
proof fn lemma_update_entry(
    prev: Seq<(String, SlotState)>,
    cur: Seq<(String, SlotState)>,
    i: int,
    k: Seq<char>,
)
    requires
        forall|a: int, b: int| 0 <= a < b < prev.len() ==> prev[a].0@ != prev[b].0@,
        0 <= i < prev.len(),
        prev[i].0@ == k,
        cur.len() == prev.len(),
        cur[i].0@ == k,
        forall|j: int| 0 <= j < prev.len() && j != i ==> cur[j] == prev[j],
    ensures
        forall|a: int, b: int| 0 <= a < b < cur.len() ==> cur[a].0@ != cur[b].0@,
        slots_map(cur) == slots_map(prev).insert(k, cur[i].1),
    decreases prev.len(),
{
    assert forall|a: int, b: int| 0 <= a < b < cur.len() implies cur[a].0@ != cur[b].0@ by {
        assert(prev[a].0@ != prev[b].0@);
    }
    if i == prev.len() - 1 {
        assert(cur.drop_last() =~= prev.drop_last());
        assert(slots_map(cur) =~= slots_map(prev).insert(k, cur[i].1));
    } else {
        assert(cur.drop_last()[i] == cur[i]);
        lemma_update_entry(prev.drop_last(), cur.drop_last(), i, k);
        assert(cur.last() == prev.last());
        assert(slots_map(cur) =~= slots_map(prev).insert(k, cur[i].1));
    }
}

/// Law: per adapter, sessions are exclusive. A successful acquisition
/// leaves the adapter's slot active, so by the contract of
/// `try_acquire` every further attempt on that adapter fails until the
/// slot is finished; once it is finished the next attempt succeeds; and
/// neither step touches any other adapter's slot.
pub proof fn lemma_discovery_exclusive(m: Map<Seq<char>, SlotState>, name: Seq<char>)
    ensures
        m.insert(name, SlotState::Active).contains_key(name),
        m.insert(name, SlotState::Active)[name] == SlotState::Active,
        m.insert(name, SlotState::Active).insert(name, SlotState::Finished)[name]
            == SlotState::Finished,
        forall|k: Seq<char>| k != name ==> m.insert(name, SlotState::Active).contains_key(k)
            == m.contains_key(k),
        forall|k: Seq<char>| k != name && m.contains_key(k) ==> m.insert(
            name,
            SlotState::Active,
        )[k] == m[k],
{
}

} // verus!
