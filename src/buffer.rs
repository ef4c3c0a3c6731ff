//! Ownership registry for buffers that cross the host boundary: it tracks
//! which regions are live and with what capacity, so that each is released
//! exactly once, with the capacity it was allocated with.
use std::collections::HashMap;
use vstd::prelude::*;

verus! {

broadcast use vstd::std_specs::hash::group_hash_axioms;

/// Why a release was refused.
#[derive(PartialEq, Eq, Structural, Debug, Clone, Copy)]
pub enum ReleaseFault {
    /// The address is not live: never allocated, or already released.
    NotLive,
    /// The address is live, but was allocated with another capacity.
    CapacityMismatch,
}

/// What releasing `address` with `capacity` gives when `live` are the live regions.
pub open spec fn release_outcome(live: Map<u64, usize>, address: u64, capacity: usize) -> Result<
    (),
    ReleaseFault,
> {
    if !live.contains_key(address) {
        Err(ReleaseFault::NotLive)
    } else if live[address] != capacity {
        Err(ReleaseFault::CapacityMismatch)
    } else {
        Ok(())
    }
}

/// The live regions after that release: the region is gone when the release
/// succeeds, and nothing changes when it is refused.
pub open spec fn after_release(live: Map<u64, usize>, address: u64, capacity: usize) -> Map<
    u64,
    usize,
> {
    if release_outcome(live, address, capacity) is Ok {
        live.remove(address)
    } else {
        live
    }
}

/// Hands out fresh addresses and records each live region with its capacity.
pub struct BufferRegistry {
    live: HashMap<u64, usize>,
    next: u64,
}

impl BufferRegistry {
    /// The live regions, address to capacity.
    pub closed spec fn regions(&self) -> Map<u64, usize> {
        self.live@
    }

    /// Every address handed out so far lies below the next one.
    pub closed spec fn wf(&self) -> bool {
        forall|a: u64| #[trigger] self.live@.contains_key(a) ==> a < self.next
    }

    /// No address is left to hand out.
    pub closed spec fn exhausted(&self) -> bool {
        self.next == u64::MAX
    }

    /// A registry with no live region.
    pub fn new() -> (r: Self)
        ensures
            r.wf(),
            r.regions() == Map::<u64, usize>::empty(),
            !r.exhausted(),
    {
        BufferRegistry { live: HashMap::new(), next: 1 }
    }

    /// Records a fresh region of `size` bytes and returns its address; `None`
    /// once the addresses are exhausted.
    pub fn allocate(&mut self, size: usize) -> (r: Option<u64>)
        requires
            old(self).wf(),
        ensures
            final(self).wf(),
            r.is_none() <==> old(self).exhausted(),
            match r {
                Some(a) => !old(self).regions().contains_key(a) && final(self).regions()
                    == old(self).regions().insert(a, size),
                None => final(self).regions() == old(self).regions(),
            },
    {
        if self.next == u64::MAX {
            return None;
        }
        let address = self.next;
        self.live.insert(address, size);
        self.next = self.next + 1;
        Some(address)
    }

    /// Releases the region at `address`, which must be live with `capacity`.
    pub fn deallocate(&mut self, address: u64, capacity: usize) -> (r: Result<(), ReleaseFault>)
        requires
            old(self).wf(),
        ensures
            final(self).wf(),
            final(self).exhausted() == old(self).exhausted(),
            r == release_outcome(old(self).regions(), address, capacity),
            final(self).regions() == after_release(old(self).regions(), address, capacity),
    {
        match self.live.get(&address) {
            None => Err(ReleaseFault::NotLive),
            Some(c) => {
                if *c != capacity {
                    Err(ReleaseFault::CapacityMismatch)
                } else {
                    self.live.remove(&address);
                    Ok(())
                }
            },
        }
    }

    /// Whether `address` is live.
    pub fn is_live(&self, address: u64) -> (r: bool)
        ensures
            r == self.regions().contains_key(address),
    {
        self.live.contains_key(&address)
    }
}

/// A region allocated with `n` bytes is released by exactly one release with
/// capacity `n`: that release succeeds and leaves the other regions as they
/// were, a second one is refused as not live, and one with another capacity
/// is refused and changes nothing.
pub proof fn lemma_release_exactly_once(live: Map<u64, usize>, address: u64, n: usize, other: usize)
    requires
        !live.contains_key(address),
        other != n,
    ensures
        release_outcome(live.insert(address, n), address, n) == Ok::<(), ReleaseFault>(()),
        after_release(live.insert(address, n), address, n) == live,
        release_outcome(after_release(live.insert(address, n), address, n), address, n) == Err::<
            (),
            ReleaseFault,
        >(ReleaseFault::NotLive),
        release_outcome(live.insert(address, n), address, other) == Err::<(), ReleaseFault>(
            ReleaseFault::CapacityMismatch,
        ),
        after_release(live.insert(address, n), address, other) == live.insert(address, n),
{
    assert(live.insert(address, n).remove(address) =~= live);
}

} // verus!
