use crate::handle::{Handle, HandleKind};
use vstd::prelude::*;

verus! {

/// One slot of an arena.
enum Slot<T> {
    /// Holds an item under the given generation.
    Occupied { generation: u64, item: T },
    /// Empty; the next tenant gets the given generation.
    Vacant { generation: u64 },
    /// Empty for good: every generation of this slot has been used.
    Retired,
}

/// A store of items addressed by generational handles.
///
/// Its view is the map from live handles to the items they own.
pub struct Arena<T> {
    kind: HandleKind,
    slots: Vec<Slot<T>>,
    free: Vec<usize>,
}

impl<T> Arena<T> {
    #[verifier::type_invariant]
    spec fn well_formed(self) -> bool {
        &&& forall|k: int|
            0 <= k < self.free@.len() ==> (#[trigger] self.free@[k]) < self.slots@.len()
                && self.slots@[self.free@[k] as int] is Vacant
        &&& forall|j: int, k: int|
            0 <= j < k < self.free@.len() ==> self.free@[j] != self.free@[k]
    }

    /// The kind of handle this arena issues.
    pub closed spec fn kind(self) -> HandleKind {
        self.kind
    }

    /// Whether `h` currently owns an item of this arena.
    pub closed spec fn live(self, h: Handle) -> bool {
        &&& h.kind == self.kind
        &&& h.index < self.slots@.len()
        &&& self.slots@[h.index as int] matches Slot::Occupied { generation, .. }
        &&& generation == h.generation
    }

    /// Whether `h` was issued by this arena and has been released since.
    pub closed spec fn spent(self, h: Handle) -> bool {
        &&& h.kind == self.kind
        &&& h.index < self.slots@.len()
        &&& match self.slots@[h.index as int] {
            Slot::Occupied { generation, .. } => h.generation < generation,
            Slot::Vacant { generation } => h.generation < generation,
            Slot::Retired => true,
        }
    }

    /// The item in the slot that `h` names.
    spec fn item_at(self, h: Handle) -> T {
        self.slots@[h.index as int]->item
    }
}

impl<T> View for Arena<T> {
    type V = Map<Handle, T>;

    closed spec fn view(&self) -> Map<Handle, T> {
        Map::new(|h: Handle| self.live(h), |h: Handle| self.item_at(h))
    }
}

impl<T> Arena<T> {
    /// Creates an empty arena that issues handles of the given kind.
    pub fn new(kind: HandleKind) -> (arena: Self)
        ensures
            arena@ == Map::<Handle, T>::empty(),
            arena.kind() == kind,
            forall|h: Handle| !arena.spent(h),
    {
        let arena = Arena { kind, slots: Vec::new(), free: Vec::new() };
        assert(arena@ =~= Map::<Handle, T>::empty());
        arena
    }

    /// Tells whether `h` owns an item of this arena.
    pub fn contains(&self, h: Handle) -> (b: bool)
        ensures
            b == self@.contains_key(h),
    {
        if h.kind == self.kind && h.index < self.slots.len() {
            match &self.slots[h.index] {
                Slot::Occupied { generation, .. } => *generation == h.generation,
                _ => false,
            }
        } else {
            false
        }
    }

    /// Borrows the item that `h` owns.
    pub fn get(&self, h: Handle) -> (r: Option<&T>)
        ensures
            match r {
                Some(item) => self@.contains_key(h) && *item == self@[h],
                None => !self@.contains_key(h),
            },
    {
        if h.kind == self.kind && h.index < self.slots.len() {
            match &self.slots[h.index] {
                Slot::Occupied { generation, item } => {
                    if *generation == h.generation {
                        Some(item)
                    } else {
                        None
                    }
                },
                _ => None,
            }
        } else {
            None
        }
    }

    /// Stores `item` in a cell of its own and returns the handle that owns it.
    pub fn insert(&mut self, item: T) -> (h: Handle)
        ensures
            !old(self)@.contains_key(h),
            !old(self).spent(h),
            h.kind == old(self).kind(),
            h != Handle::spec_null(h.kind),
            final(self)@ == old(self)@.insert(h, item),
            final(self).kind() == old(self).kind(),
            forall|x: Handle| final(self).spent(x) == old(self).spent(x),
    {
        proof {
            use_type_invariant(&*self);
        }
        let kind = self.kind;
        let mut free: Vec<usize> = Vec::new();
        core::mem::swap(&mut self.free, &mut free);
        let mut slots: Vec<Slot<T>> = Vec::new();
        core::mem::swap(&mut self.slots, &mut slots);
        let h = if free.len() > 0 {
            let index = free.pop().unwrap();
            assert(index < slots.len());
            let generation = match &slots[index] {
                Slot::Vacant { generation } => *generation,
                _ => 0,
            };
            slots.set(index, Slot::Occupied { generation, item });
            Handle { kind, index, generation }
        } else {
            let index = slots.len();
            slots.push(Slot::Occupied { generation: 0, item });
            assert(index < slots.len());
            Handle { kind, index, generation: 0 }
        };
        self.slots = slots;
        self.free = free;
        assert(final(self)@ =~= old(self)@.insert(h, item));
        h
    }

    /// Releases the cell that `h` owns and hands its item back. A handle that
    /// owns nothing releases nothing.
    pub fn remove(&mut self, h: Handle) -> (r: Option<T>)
        ensures
            match r {
                Some(item) => old(self)@.contains_key(h) && item == old(self)@[h],
                None => !old(self)@.contains_key(h),
            },
            final(self)@ == old(self)@.remove(h),
            final(self).kind() == old(self).kind(),
            forall|x: Handle|
                final(self).spent(x) == (old(self).spent(x) || (x == h && old(self)@.contains_key(
                    h,
                ))),
    {
        proof {
            use_type_invariant(&*self);
        }
        if !self.contains(h) {
            assert(final(self)@ =~= old(self)@.remove(h));
            return None;
        }
        let mut free: Vec<usize> = Vec::new();
        core::mem::swap(&mut self.free, &mut free);
        let mut slots: Vec<Slot<T>> = Vec::new();
        core::mem::swap(&mut self.slots, &mut slots);
        let reusable = h.generation < u64::MAX;
        if reusable {
            slots.push(Slot::Vacant { generation: h.generation + 1 });
        } else {
            slots.push(Slot::Retired);
        }
        let taken = slots.swap_remove(h.index);
        if reusable {
            free.push(h.index);
        }
        self.slots = slots;
        self.free = free;
        assert(final(self)@ =~= old(self)@.remove(h));
        match taken {
            Slot::Occupied { item, .. } => Some(item),
            _ => None,
        }
    }

    /// Puts `item` in the cell that `h` owns and hands the previous item back.
    /// A handle that owns nothing gets `item` back untouched.
    pub fn replace(&mut self, h: Handle, item: T) -> (r: Result<T, T>)
        ensures
            match r {
                Ok(previous) => old(self)@.contains_key(h) && previous == old(self)@[h]
                    && final(self)@ == old(self)@.insert(h, item),
                Err(rejected) => !old(self)@.contains_key(h) && rejected == item && final(self)@
                    == old(self)@,
            },
            final(self).kind() == old(self).kind(),
            forall|x: Handle| final(self).spent(x) == old(self).spent(x),
    {
        proof {
            use_type_invariant(&*self);
        }
        if !self.contains(h) {
            return Err(item);
        }
        let mut free: Vec<usize> = Vec::new();
        core::mem::swap(&mut self.free, &mut free);
        let mut slots: Vec<Slot<T>> = Vec::new();
        core::mem::swap(&mut self.slots, &mut slots);
        slots.push(Slot::Occupied { generation: h.generation, item });
        let taken = slots.swap_remove(h.index);
        self.slots = slots;
        self.free = free;
        assert(final(self)@ =~= old(self)@.insert(h, item));
        match taken {
            Slot::Occupied { item: previous, .. } => Ok(previous),
            _ => vstd::pervasive::unreached(),
        }
    }

    /// Every handle that is live or spent is of this arena's kind.
    pub proof fn lemma_kind(self)
        ensures
            forall|h: Handle| #[trigger] self@.contains_key(h) ==> h.kind == self.kind(),
            forall|h: Handle| #[trigger] self.spent(h) ==> h.kind == self.kind(),
    {
    }

    /// A handle is never both live and spent, and the null handle is neither.
    pub proof fn lemma_live_or_spent(self, h: Handle)
        ensures
            !(self@.contains_key(h) && self.spent(h)),
            self@.contains_key(h) || self.spent(h) ==> h.kind == self.kind() && h
                != Handle::spec_null(h.kind),
    {
        assert(self.slots@.len() == self.slots.len());
    }

    /// The live handles whose slot lies below `n`.
    spec fn live_below(self, n: int) -> Set<Handle> {
        Set::new(|h: Handle| self.live(h) && h.index < n)
    }

    proof fn lemma_live_below_step(self, n: int)
        requires
            0 <= n < self.slots@.len(),
            self.live_below(n).finite(),
        ensures
            self.live_below(n + 1).finite(),
            self.live_below(n + 1).len() == self.live_below(n).len() + (if self.slots@[n]
                is Occupied {
                1nat
            } else {
                0nat
            }),
    {
        assert(self.slots@.len() == self.slots.len());
        if self.slots@[n] is Occupied {
            let h = Handle {
                kind: self.kind,
                index: n as usize,
                generation: self.slots@[n]->Occupied_generation,
            };
            assert(self.live_below(n + 1) =~= self.live_below(n).insert(h));
        } else {
            assert(self.live_below(n + 1) =~= self.live_below(n));
        }
    }

    /// Counts the live handles.
    pub fn len(&self) -> (n: usize)
        ensures
            self@.dom().finite(),
            n == self@.len(),
    {
        let mut count: usize = 0;
        let mut i: usize = 0;
        assert(self.live_below(0) =~= Set::<Handle>::empty());
        while i < self.slots.len()
            invariant
                i <= self.slots.len(),
                count <= i,
                self.live_below(i as int).finite(),
                count == self.live_below(i as int).len(),
            decreases self.slots.len() - i,
        {
            proof {
                self.lemma_live_below_step(i as int);
            }
            match &self.slots[i] {
                Slot::Occupied { .. } => {
                    count = count + 1;
                },
                _ => {},
            }
            i = i + 1;
        }
        assert(self.live_below(i as int) =~= self@.dom());
        count
    }
}

} // verus!
