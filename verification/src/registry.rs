//! The source registry: a slab mapping dense numeric tokens to source
//! records.
//!
//! A token is the index of its slot. Registration fills the first reusable
//! slot (or grows the slab) with a fresh record; deregistration empties the
//! slot and hands back any parked wakers so the reactor can fire them,
//! letting parked tasks observe closure. A freed slot is not reused at
//! once: it retires until the end of the reactor turn that freed it, so a
//! waker delivery still in flight can never reach a new source under an old
//! token. The module proves that a registration followed by its
//! deregistration restores the registry's occupied slots exactly, and that
//! a retiring slot is never reallocated before it is reclaimed.

use vstd::prelude::*;

use crate::readiness::Source;

verus! {

/// One slot of the slab: holding a registered source, retiring after a
/// deregistration until the end of the turn, or free for reuse.
#[derive(Clone, Copy, PartialEq, Eq, Debug)]
pub enum Slot {
    Occupied(Source),
    Retiring,
    Free,
}

/// The slab of source records, indexed by token.
pub struct Registry {
    pub slots: Vec<Slot>,
}

/// The first free slot at or after `i`, or the length if none is free.
pub open spec fn first_free_from(s: Seq<Slot>, i: int) -> int
    decreases s.len() - i when 0 <= i <= s.len()
{
    if i >= s.len() {
        s.len() as int
    } else if s[i] is Free {
        i
    } else {
        first_free_from(s, i + 1)
    }
}

/// The token a registration on `s` allocates.
pub open spec fn alloc_token(s: Seq<Slot>) -> int {
    first_free_from(s, 0)
}

/// Effect of a registration: a fresh record in the first free slot, or in a
/// new slot at the end when no slot is free.
pub open spec fn spec_register(s: Seq<Slot>) -> Seq<Slot> {
    if alloc_token(s) < s.len() {
        s.update(alloc_token(s), Slot::Occupied(Source::fresh()))
    } else {
        s.push(Slot::Occupied(Source::fresh()))
    }
}

/// Effect of a deregistration: the slot retires, to be reclaimed at the end
/// of the turn.
pub open spec fn spec_deregister(s: Seq<Slot>, token: int) -> Seq<Slot> {
    s.update(token, Slot::Retiring)
}

/// Effect of the end of a turn: every retiring slot becomes free.
pub open spec fn spec_reclaim(s: Seq<Slot>) -> Seq<Slot> {
    Seq::new(s.len(), |i: int| if s[i] is Retiring {
        Slot::Free
    } else {
        s[i]
    })
}

/// The occupied slots of the registry, as a map from token to record.
pub open spec fn occupied_map(s: Seq<Slot>) -> Map<int, Source> {
    Map::new(|i: int| 0 <= i < s.len() && s[i] is Occupied, |i: int| s[i]->Occupied_0)
}

/// Everything before the first free slot is unavailable, and the first free
/// slot (when inside the slab) is indeed free.
pub proof fn lemma_first_free_from_props(s: Seq<Slot>, i: int)
    requires
        0 <= i <= s.len(),
    ensures
        i <= first_free_from(s, i) <= s.len(),
        first_free_from(s, i) < s.len() ==> s[first_free_from(s, i)] is Free,
        forall|j: int| i <= j < first_free_from(s, i) ==> !(s[j] is Free),
    decreases s.len() - i,
{
    if i < s.len() && !(s[i] is Free) {
        lemma_first_free_from_props(s, i + 1);
    }
}

/// Searches started anywhere inside a prefix without free slots agree.
proof fn lemma_first_free_aux(s: Seq<Slot>, a: int, b: int)
    requires
        0 <= a <= b <= s.len(),
        forall|j: int| a <= j < b ==> !(s[j] is Free),
    ensures
        first_free_from(s, a) == first_free_from(s, b),
    decreases b - a,
{
    if a < b {
        lemma_first_free_aux(s, a + 1, b);
    }
}

impl Registry {
    /// An empty registry.
    pub fn new() -> (r: Registry)
        ensures
            r.slots@.len() == 0,
    {
        Registry { slots: Vec::new() }
    }

    /// Register a new source: allocate the first free slot (growing the slab
    /// if none is free), store a fresh record there, and return its token.
    pub fn register(&mut self) -> (token: usize)
        requires
            old(self).slots@.len() < usize::MAX,
        ensures
            token as int == alloc_token(old(self).slots@),
            final(self).slots@ == spec_register(old(self).slots@),
            final(self).slots@[token as int] == Slot::Occupied(Source::fresh()),
            token < final(self).slots@.len(),
    {
        let n = self.slots.len();
        let mut i: usize = 0;
        while i < n
            invariant
                self.slots@ == old(self).slots@,
                n == self.slots@.len(),
                0 <= i <= n,
                forall|j: int| 0 <= j < i ==> !(self.slots@[j] is Free),
            decreases n - i,
        {
            if matches!(self.slots[i], Slot::Free) {
                proof {
                    lemma_first_free_aux(self.slots@, 0, i as int);
                }
                self.slots.set(i, Slot::Occupied(Source::new()));
                return i;
            }
            i = i + 1;
        }
        proof {
            lemma_first_free_aux(self.slots@, 0, n as int);
        }
        self.slots.push(Slot::Occupied(Source::new()));
        n
    }

    /// Deregister a token: retire its slot and hand back the parked wakers
    /// (read, write) so the caller can fire them; tasks parked on a closing
    /// source must be woken to observe the closure. The slot becomes
    /// reusable only when `reclaim` runs at the end of the turn.
    pub fn deregister(&mut self, token: usize) -> (wakes: (Option<u64>, Option<u64>))
        requires
            token < old(self).slots@.len(),
            old(self).slots@[token as int] is Occupied,
        ensures
            final(self).slots@ == spec_deregister(old(self).slots@, token as int),
            wakes.0 == old(self).slots@[token as int]->Occupied_0.read_waker,
            wakes.1 == old(self).slots@[token as int]->Occupied_0.write_waker,
    {
        let record = match self.slots[token] {
            Slot::Occupied(src) => src,
            _ => Source::new(),
        };
        self.slots.set(token, Slot::Retiring);
        (record.read_waker, record.write_waker)
    }

    /// End of a reactor turn: slots retired during the turn become free, so
    /// their tokens may be reused from the next turn on.
    pub fn reclaim(&mut self)
        ensures
            final(self).slots@ == spec_reclaim(old(self).slots@),
    {
        let n = self.slots.len();
        let mut i: usize = 0;
        while i < n
            invariant
                n == self.slots@.len(),
                n == old(self).slots@.len(),
                0 <= i <= n,
                forall|j: int| 0 <= j < i ==> self.slots@[j] == spec_reclaim(old(self).slots@)[j],
                forall|j: int| i <= j < n ==> self.slots@[j] == old(self).slots@[j],
            decreases n - i,
        {
            if matches!(self.slots[i], Slot::Retiring) {
                self.slots.set(i, Slot::Free);
            }
            assert(self.slots@[i as int] == spec_reclaim(old(self).slots@)[i as int]);
            i = i + 1;
        }
        proof {
            assert(final(self).slots@ =~= spec_reclaim(old(self).slots@));
        }
    }

    /// Whether a token currently names a registered source.
    pub fn is_registered(&self, token: usize) -> (r: bool)
        ensures
            r == (token < self.slots@.len() && self.slots@[token as int] is Occupied),
    {
        token < self.slots.len() && matches!(self.slots[token], Slot::Occupied(_))
    }
}

/// Round trip: a registration followed by deregistration of the token it
/// returned, with the turn's reclaim, leaves the registry in its
/// pre-registration state up to reusable slots: the map of occupied slots
/// is restored exactly, both when the turn ends and already while the slot
/// retires.
pub proof fn lemma_register_deregister_round_trip(s: Seq<Slot>)
    ensures
        occupied_map(spec_deregister(spec_register(s), alloc_token(s))) =~= occupied_map(s),
        occupied_map(spec_reclaim(spec_deregister(spec_register(s), alloc_token(s))))
            =~= occupied_map(spec_reclaim(s)),
{
    lemma_first_free_from_props(s, 0);
}

/// Deferred reuse: a retiring slot's token is never the one a registration
/// allocates, so a token freed in this turn cannot name a new source until
/// the turn's reclaim has run.
pub proof fn lemma_no_reuse_before_reclaim(s: Seq<Slot>, token: int)
    requires
        0 <= token < s.len(),
        s[token] is Retiring,
    ensures
        alloc_token(s) != token,
{
    lemma_first_free_from_props(s, 0);
}

} // verus!
