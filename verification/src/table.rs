//! The capability table: which handle stands for which device resource.

use vstd::prelude::*;

verus! {

/// An opaque token that stands for at most one resource of one table.
#[derive(Clone, Copy, Debug, PartialEq, Eq, Structural)]
pub struct Handle {
    /// The slot of the table that the handle points at.
    pub index: usize,
    /// The generation of that slot for which the handle was issued.
    pub generation: u64,
}

impl Handle {
    /// The handle that no table ever issues.
    pub open spec fn never() -> Handle {
        Handle { index: usize::MAX, generation: u64::MAX }
    }

    /// A handle that no table ever issues: it stands for whatever the guest
    /// names without having been given it.
    pub fn unissued() -> (handle: Handle)
        ensures
            handle == Handle::never(),
    {
        Handle { index: usize::MAX, generation: u64::MAX }
    }
}

/// Why a handle did not resolve.
#[derive(Clone, Copy, Debug, PartialEq, Eq, Structural)]
pub enum LookupError {
    /// The table never issued this handle.
    Unknown,
    /// The table issued this handle, and the resource has been released since.
    Stale,
}

struct Slot<R> {
    generation: u64,
    entry: Option<R>,
}

/// Owns every live resource and resolves handles to them.
///
/// A slot that loses its resource moves on to its next generation, so a
/// handle that was released never resolves again, whatever is inserted later.
pub struct ResourceTable<R> {
    slots: Vec<Slot<R>>,
    /// The empty slots that the next inserts will fill.
    free: Vec<usize>,
}

impl<R> View for ResourceTable<R> {
    type V = Map<Handle, R>;

    /// The live handles, each with the resource it resolves to.
    closed spec fn view(&self) -> Map<Handle, R> {
        Map::new(|h: Handle| self.live(h), |h: Handle| self.slots@[h.index as int].entry->0)
    }
}

impl<R> ResourceTable<R> {
    /// An occupied slot always has a generation left to move on to, and
    /// the free list names empty slots of which the same holds, each once.
    pub closed spec fn wf(&self) -> bool {
        &&& forall|i: int|
            0 <= i < self.slots@.len() && (#[trigger] self.slots@[i]).entry is Some
                ==> self.slots@[i].generation < u64::MAX
        &&& forall|k: int| 0 <= k < self.free@.len() ==> self.reusable(#[trigger] self.free@[k])
        &&& forall|j: int, k: int|
            0 <= j < k < self.free@.len() ==> self.free@[j] != self.free@[k]
    }

    spec fn reusable(&self, index: usize) -> bool {
        &&& index < self.slots@.len()
        &&& self.slots@[index as int].entry is None
        &&& self.slots@[index as int].generation < u64::MAX
    }

    spec fn live(&self, h: Handle) -> bool {
        &&& h.index < self.slots@.len()
        &&& self.slots@[h.index as int].generation == h.generation
        &&& self.slots@[h.index as int].entry is Some
    }

    /// The handles that were issued and released: none of them resolves, now or later.
    pub closed spec fn released(&self) -> Set<Handle> {
        Set::new(
            |h: Handle|
                h.index < self.slots@.len() && h.generation < self.slots@[h.index as int].generation,
        )
    }

    /// What a failed lookup of `h` reports.
    pub open spec fn lookup_error(&self, h: Handle) -> LookupError {
        if self.released().contains(h) {
            LookupError::Stale
        } else {
            LookupError::Unknown
        }
    }

    /// No handle is both live and released.
    pub proof fn lemma_released_is_dead(&self, h: Handle)
        requires
            self.released().contains(h),
        ensures
            !self@.contains_key(h),
    {
    }

    /// The handle that is never issued is neither live nor released.
    pub proof fn lemma_never_is_unknown(&self)
        requires
            self.wf(),
        ensures
            !self@.contains_key(Handle::never()),
            !self.released().contains(Handle::never()),
    {
    }

    /// An empty table.
    pub fn new() -> (table: Self)
        ensures
            table.wf(),
            table@ == Map::<Handle, R>::empty(),
            table.released() == Set::<Handle>::empty(),
    {
        let table = ResourceTable { slots: Vec::new(), free: Vec::new() };
        table
    }

    /// Whether `handle` resolves to a resource.
    pub fn contains(&self, handle: Handle) -> (live: bool)
        ensures
            live == self@.contains_key(handle),
    {
        handle.index < self.slots.len() && self.slots[handle.index].generation == handle.generation
            && self.slots[handle.index].entry.is_some()
    }

    /// Takes ownership of `resource` and issues a handle that was never issued before.
    pub fn insert(&mut self, resource: R) -> (handle: Handle)
        requires
            old(self).wf(),
        ensures
            final(self).wf(),
            !old(self)@.contains_key(handle),
            !old(self).released().contains(handle),
            final(self)@ == old(self)@.insert(handle, resource),
            final(self).released() == old(self).released(),
    {
        match self.free.pop() {
            Some(index) => {
                let generation = self.slots[index].generation;
                self.slots[index] = Slot { generation, entry: Some(resource) };
                Handle { index, generation }
            },
            None => {
                let index = self.slots.len();
                self.slots.push(Slot { generation: 0, entry: Some(resource) });
                Handle { index, generation: 0 }
            },
        }
    }

    /// Lends the resource behind `handle` for one call.
    pub fn borrow_mut(&mut self, handle: Handle) -> (res: Result<&mut R, LookupError>)
        requires
            old(self).wf(),
        ensures
            final(self).wf(),
            final(self).released() == old(self).released(),
            match res {
                Ok(resource) => {
                    &&& old(self)@.contains_key(handle)
                    &&& *resource == old(self)@[handle]
                    &&& final(self)@ == old(self)@.insert(handle, *final(resource))
                },
                Err(e) => {
                    &&& !old(self)@.contains_key(handle)
                    &&& e == old(self).lookup_error(handle)
                    &&& *final(self) == *old(self)
                },
            },
    {
        if !self.contains(handle) {
            return Err(self.why_not(handle));
        }
        let slot = &mut self.slots[handle.index];
        match &mut slot.entry {
            Some(resource) => Ok(resource),
            None => Err(LookupError::Unknown),
        }
    }

    /// Releases the resource behind `handle` and hands it back; the handle never resolves again.
    pub fn remove(&mut self, handle: Handle) -> (res: Result<R, LookupError>)
        requires
            old(self).wf(),
        ensures
            final(self).wf(),
            match res {
                Ok(resource) => {
                    &&& old(self)@.contains_key(handle)
                    &&& resource == old(self)@[handle]
                    &&& final(self)@ == old(self)@.remove(handle)
                    &&& final(self).released() == old(self).released().insert(handle)
                },
                Err(e) => {
                    &&& !old(self)@.contains_key(handle)
                    &&& e == old(self).lookup_error(handle)
                    &&& *final(self) == *old(self)
                },
            },
    {
        if !self.contains(handle) {
            return Err(self.why_not(handle));
        }
        let mut slot = Slot { generation: handle.generation + 1, entry: None };
        core::mem::swap(&mut self.slots[handle.index], &mut slot);
        if handle.generation + 1 < u64::MAX {
            self.free.push(handle.index);
        }
        match slot.entry {
            Some(resource) => Ok(resource),
            None => Err(LookupError::Unknown),
        }
    }

    fn why_not(&self, handle: Handle) -> (e: LookupError)
        ensures
            e == self.lookup_error(handle),
    {
        if handle.index < self.slots.len() && handle.generation
            < self.slots[handle.index].generation {
            LookupError::Stale
        } else {
            LookupError::Unknown
        }
    }
}

/// The numbers under which a guest names its handles. A number is given out
/// once, counts up from zero, and stands for the same handle for good.
pub struct GuestHandles {
    issued: Vec<Handle>,
}

impl View for GuestHandles {
    type V = Seq<Handle>;

    /// The handles that have a number, by number.
    closed spec fn view(&self) -> Seq<Handle> {
        self.issued@
    }
}

impl GuestHandles {
    /// The handle that the number `rep` stands for; the handle that is never
    /// issued where the number was not given out.
    pub open spec fn handle_of(&self, rep: u32) -> Handle {
        if rep < self@.len() {
            self@[rep as int]
        } else {
            Handle::never()
        }
    }

    /// Tells whether all numbers of 32 bits are given out.
    pub fn is_full(&self) -> (full: bool)
        ensures
            full == (self@.len() > u32::MAX),
    {
        self.issued.len() > 0xFFFF_FFFF
    }

    /// No number is given out yet.
    pub fn new() -> (names: Self)
        ensures
            names@ == Seq::<Handle>::empty(),
    {
        GuestHandles { issued: Vec::new() }
    }

    /// Gives `handle` the next number; none where all numbers of 32 bits
    /// are given out.
    pub fn issue(&mut self, handle: Handle) -> (rep: Option<u32>)
        ensures
            match rep {
                Some(number) => number == old(self)@.len() && final(self)@ == old(self)@.push(
                    handle,
                ),
                None => old(self)@.len() > u32::MAX && final(self)@ == old(self)@,
            },
    {
        let n = self.issued.len();
        if n > 0xFFFF_FFFF {
            return None;
        }
        self.issued.push(handle);
        Some(n as u32)
    }

    /// The handle that the number `rep` stands for; the handle that is never
    /// issued where the number was not given out.
    pub fn resolve(&self, rep: u32) -> (handle: Handle)
        ensures
            handle == self.handle_of(rep),
    {
        if (rep as usize) < self.issued.len() {
            self.issued[rep as usize]
        } else {
            Handle::unissued()
        }
    }
}

} // verus!
