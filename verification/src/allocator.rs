//! Capability-routed buffer allocation.
//!
//! Buffer requests carry a [`MemoryCapability`] that selects one of two
//! backing regions: a small fast internal region for per-frame scratch, and
//! a large bulk external region for textures and full-frame fills.  The
//! allocator refuses a request whose byte size cannot be computed without
//! overflow, or whose byte size exceeds the chosen region's capacity; a
//! successful request always yields owned, writable storage of exactly the
//! requested length, never a dangling handle.

use vstd::prelude::*;

verus! {

use crate::Pixel;

/// Selects which memory region backs an allocation.
#[derive(Clone, Copy, PartialEq, Eq, Structural, Debug)]
pub enum MemoryCapability {
    /// Small internal region, intended for short-lived per-frame scratch.
    Fast,
    /// Large external region, intended for textures and full-frame fills.
    Bulk,
}

/// Why a buffer request was refused.
#[derive(Clone, Copy, PartialEq, Eq, Structural, Debug)]
pub enum AllocationError {
    /// The byte size of the request cannot be computed without overflow.
    InvalidLayout,
    /// The chosen region cannot hold a buffer of the requested byte size.
    OutOfMemory,
}

/// Bytes that one pixel occupies in a buffer.
pub const PIXEL_BYTES: usize = 2;

/// An owned, contiguous run of pixels backed by one memory region.
///
/// A buffer is exclusively owned by its requester and released when the
/// owner's scope ends; its length is fixed when it is acquired.
pub struct Buffer {
    data: Vec<Pixel>,
    capability: MemoryCapability,
}

impl View for Buffer {
    type V = Seq<Pixel>;

    closed spec fn view(&self) -> Seq<Pixel> {
        self.data@
    }
}

impl Buffer {
    /// The region this buffer was routed to.
    pub closed spec fn region(&self) -> MemoryCapability {
        self.capability
    }

    /// Number of pixels the buffer holds.
    pub fn len(&self) -> (n: usize)
        ensures
            n == self@.len(),
    {
        self.data.len()
    }

    /// The region this buffer was routed to.
    pub fn capability(&self) -> (c: MemoryCapability)
        ensures
            c == self.region(),
    {
        self.capability
    }

    /// Reads the pixel at `i`.
    pub fn get(&self, i: usize) -> (p: Pixel)
        requires
            i < self@.len(),
        ensures
            p == self@[i as int],
    {
        self.data[i]
    }

    /// Overwrites the pixel at `i`.
    pub fn set(&mut self, i: usize, p: Pixel)
        requires
            i < old(self)@.len(),
        ensures
            final(self)@ == old(self)@.update(i as int, p),
            final(self).region() == old(self).region(),
    {
        self.data[i] = p;
    }

    /// Paints every pixel of the buffer with `p`.
    pub fn fill(&mut self, p: Pixel)
        ensures
            final(self)@.len() == old(self)@.len(),
            forall|i: int| 0 <= i < final(self)@.len() ==> final(self)@[i] == p,
            final(self).region() == old(self).region(),
    {
        let n = self.data.len();
        let mut i: usize = 0;
        while i < n
            invariant
                i <= n,
                n == self.data@.len(),
                self.capability == old(self).capability,
                forall|j: int| 0 <= j < i ==> self.data@[j] == p,
            decreases n - i,
        {
            self.data[i] = p;
            i = i + 1;
        }
    }

    /// Borrows the pixels for handing to the display driver.
    pub fn as_slice(&self) -> (s: &[Pixel])
        ensures
            s@ == self@,
    {
        self.data.as_slice()
    }

    /// A second buffer with the same pixels and the same backing region.
    pub fn duplicate(&self) -> (r: Buffer)
        ensures
            r@ == self@,
            r.region() == self.region(),
    {
        let mut data: Vec<Pixel> = Vec::new();
        let n = self.data.len();
        let mut i: usize = 0;
        while i < n
            invariant
                i <= n,
                n == self.data@.len(),
                data@ == self.data@.subrange(0, i as int),
            decreases n - i,
        {
            data.push(self.data[i]);
            proof {
                assert(data@ =~= self.data@.subrange(0, i + 1));
            }
            i = i + 1;
        }
        proof {
            assert(data@ =~= self.data@);
        }
        Buffer { data, capability: self.capability }
    }
}

/// Routes buffer requests to one of the two memory regions.
///
/// One instance per process is constructed at startup with the byte
/// capacity of each region and passed by reference to every caller.
pub struct CapabilityAllocator {
    fast_capacity: usize,
    bulk_capacity: usize,
}

impl CapabilityAllocator {
    /// Byte capacity of the region that `c` selects.
    pub closed spec fn capacity_of(&self, c: MemoryCapability) -> usize {
        match c {
            MemoryCapability::Fast => self.fast_capacity,
            MemoryCapability::Bulk => self.bulk_capacity,
        }
    }

    /// An allocator whose regions hold the given numbers of bytes.
    pub fn new(fast_capacity: usize, bulk_capacity: usize) -> (a: CapabilityAllocator)
        ensures
            a.capacity_of(MemoryCapability::Fast) == fast_capacity,
            a.capacity_of(MemoryCapability::Bulk) == bulk_capacity,
    {
        CapabilityAllocator { fast_capacity, bulk_capacity }
    }

    /// Byte capacity of the region that `c` selects.
    pub fn capacity(&self, c: MemoryCapability) -> (n: usize)
        ensures
            n == self.capacity_of(c),
    {
        match c {
            MemoryCapability::Fast => self.fast_capacity,
            MemoryCapability::Bulk => self.bulk_capacity,
        }
    }

    /// Requests an owned buffer of `count` pixels from the region that
    /// `capability` selects.
    ///
    /// A request of zero pixels succeeds with an empty buffer.  A request
    /// whose byte size cannot be computed in the machine's address width
    /// fails with `InvalidLayout`; one whose byte size exceeds the region's
    /// capacity fails with `OutOfMemory`.  Every other request succeeds,
    /// and the returned buffer holds exactly `count` cleared pixels.
    pub fn acquire(&self, capability: MemoryCapability, count: usize) -> (r: Result<
        Buffer,
        AllocationError,
    >)
        ensures
            match r {
                Ok(b) => {
                    &&& count * PIXEL_BYTES <= usize::MAX
                    &&& count * PIXEL_BYTES <= self.capacity_of(capability)
                    &&& b@.len() == count
                    &&& forall|i: int| 0 <= i < count ==> b@[i] == (Pixel { raw: 0 })
                    &&& b.region() == capability
                },
                Err(AllocationError::InvalidLayout) => count * PIXEL_BYTES > usize::MAX,
                Err(AllocationError::OutOfMemory) => {
                    &&& count * PIXEL_BYTES <= usize::MAX
                    &&& count * PIXEL_BYTES > self.capacity_of(capability)
                },
            },
    {
        match count.checked_mul(PIXEL_BYTES) {
            None => Err(AllocationError::InvalidLayout),
            Some(bytes) => {
                let limit = self.capacity(capability);
                if bytes > limit {
                    Err(AllocationError::OutOfMemory)
                } else {
                    let mut data: Vec<Pixel> = Vec::new();
                    let mut i: usize = 0;
                    while i < count
                        invariant
                            i <= count,
                            data@.len() == i,
                            forall|j: int| 0 <= j < i ==> data@[j] == (Pixel { raw: 0 }),
                        decreases count - i,
                    {
                        data.push(Pixel { raw: 0 });
                        i = i + 1;
                    }
                    Ok(Buffer { data, capability })
                }
            },
        }
    }
}

} // verus!
