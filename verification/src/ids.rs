//! Identifier allocation: two independent families of 64-bit handles
//! ("path identifiers" and "data identifiers"), each strictly increasing from
//! 1, with 0 reserved as the null sentinel meaning "never assigned".

use vstd::prelude::*;

verus! {

/// Hands out one family of 64-bit identifiers.
///
/// Every call to [`IdAllocator::allocate`] returns the current counter value
/// and bumps it, so within one allocator the results are distinct, strictly
/// increasing, and never equal to the reserved null value 0.
#[derive(Debug)]
pub struct IdAllocator {
    next: u64,
}

impl IdAllocator {
    /// The value the next allocation will return.
    pub closed spec fn spec_next(&self) -> u64 {
        self.next
    }

    pub open spec fn wf(&self) -> bool {
        1 <= self.spec_next()
    }

    /// The counter has room for one more identifier.
    pub open spec fn can_allocate(&self) -> bool {
        self.spec_next() < u64::MAX
    }

    pub fn new() -> (r: IdAllocator)
        ensures
            r.wf(),
            r.spec_next() == 1,
    {
        IdAllocator { next: 1 }
    }

    /// Whether one more identifier can be issued. Callers outside the
    /// verified crate test this before commands that allocate.
    pub fn has_capacity(&self) -> (r: bool)
        ensures
            r == self.can_allocate(),
    {
        self.next < u64::MAX
    }

    /// Issues the next identifier of this family.
    pub fn allocate(&mut self) -> (r: u64)
        requires
            old(self).wf(),
            old(self).can_allocate(),
        ensures
            final(self).wf(),
            r == old(self).spec_next(),
            final(self).spec_next() == old(self).spec_next() + 1,
            r != 0,
    {
        let id = self.next;
        self.next = self.next + 1;
        id
    }
}

/// The identifiers that a run of `n` consecutive allocations yields when the
/// counter starts at `start`.
pub open spec fn allocation_run(start: int, n: nat) -> Seq<int> {
    Seq::new(n, |i: int| start + i)
}

/// Law: for any sequence of `n` allocations within one family, all `n`
/// results are distinct, strictly increasing, and none equal the null
/// sentinel.
pub proof fn lemma_allocation_run_distinct(start: int, n: nat)
    requires
        1 <= start,
    ensures
        forall|i: int, j: int|
            0 <= i < j < n ==> allocation_run(start, n)[i] < allocation_run(start, n)[j],
        forall|i: int| 0 <= i < n ==> allocation_run(start, n)[i] != 0,
{
}

/// Identifies one selection of a file path in a slot. Superseded (and thereby
/// invalidated) whenever the slot's path is reassigned or the slot is reset.
#[derive(Debug, Clone, Copy, PartialEq, Eq, Structural)]
pub struct PathId(pub u64);

impl PathId {
    pub open spec fn spec_value(self) -> u64 {
        self.0
    }

    /// The reserved null identifier: no path has been assigned.
    pub fn null() -> (r: PathId)
        ensures
            r.spec_value() == 0,
    {
        PathId(0)
    }

    /// Allocates a fresh path identifier from the path-identifier family.
    pub fn new(alloc: &mut IdAllocator) -> (r: PathId)
        requires
            old(alloc).wf(),
            old(alloc).can_allocate(),
        ensures
            final(alloc).wf(),
            r.spec_value() == old(alloc).spec_next(),
            final(alloc).spec_next() == old(alloc).spec_next() + 1,
            r.spec_value() != 0,
    {
        PathId(alloc.allocate())
    }
}

impl Default for PathId {
    fn default() -> (r: PathId)
        ensures
            r.spec_value() == 0,
    {
        PathId(0)
    }
}

/// Identifies one version of loaded file content. Superseded whenever the
/// owning record's data is replaced or forgotten.
#[derive(Debug, Clone, Copy, PartialEq, Eq, Structural)]
pub struct DataId(pub u64);

impl DataId {
    pub open spec fn spec_value(self) -> u64 {
        self.0
    }

    /// The reserved null identifier: no data has been loaded.
    pub fn null() -> (r: DataId)
        ensures
            r.spec_value() == 0,
    {
        DataId(0)
    }

    /// Allocates a fresh data identifier from the data-identifier family.
    pub fn new(alloc: &mut IdAllocator) -> (r: DataId)
        requires
            old(alloc).wf(),
            old(alloc).can_allocate(),
        ensures
            final(alloc).wf(),
            r.spec_value() == old(alloc).spec_next(),
            final(alloc).spec_next() == old(alloc).spec_next() + 1,
            r.spec_value() != 0,
    {
        DataId(alloc.allocate())
    }
}

impl Default for DataId {
    fn default() -> (r: DataId)
        ensures
            r.spec_value() == 0,
    {
        DataId(0)
    }
}

} // verus!
