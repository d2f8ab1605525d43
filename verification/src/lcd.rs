//! Full-frame backdrop fill for the panel.

use vstd::prelude::*;

verus! {

use crate::allocator::{AllocationError, CapabilityAllocator, MemoryCapability, PIXEL_BYTES};
use crate::renderer::{rect_is, Rect, RectWrite};
use crate::{Pixel, MONITOR_HEIGHT, MONITOR_WIDTH};

/// The panel as the core sees it: a namespace for whole-frame operations.
/// Bringing the panel up and handing writes to it happens outside.
pub struct LcdMonitor;

/// Every pixel of one full frame in a single colour.
pub open spec fn full_frame(color: Pixel) -> Seq<Pixel> {
    Seq::new((MONITOR_WIDTH * MONITOR_HEIGHT) as nat, |i: int| color)
}

impl LcdMonitor {
    /// The single write that paints the whole panel in `color`.  A full
    /// frame is a large, long-lived asset, so its pixels are routed to
    /// the bulk region; the request is refused only when that region
    /// cannot hold a full frame, a refusal the caller treats as fatal at
    /// startup.
    pub fn fill_monitor(alloc: &CapabilityAllocator, color: Pixel) -> (r: Result<
        RectWrite,
        AllocationError,
    >)
        ensures
            match r {
                Ok(w) => {
                    &&& MONITOR_WIDTH * MONITOR_HEIGHT * PIXEL_BYTES <= alloc.capacity_of(
                        MemoryCapability::Bulk,
                    )
                    &&& rect_is(w.rect, (0, 0, MONITOR_HEIGHT as int, MONITOR_WIDTH as int))
                    &&& w.pixels@ == full_frame(color)
                    &&& w.pixels.region() == MemoryCapability::Bulk
                },
                Err(e) => {
                    &&& e == AllocationError::OutOfMemory
                    &&& MONITOR_WIDTH * MONITOR_HEIGHT * PIXEL_BYTES > alloc.capacity_of(
                        MemoryCapability::Bulk,
                    )
                },
            },
    {
        let count: usize = (MONITOR_WIDTH as usize) * (MONITOR_HEIGHT as usize);
        match alloc.acquire(MemoryCapability::Bulk, count) {
            Err(e) => Err(e),
            Ok(mut pixels) => {
                pixels.fill(color);
                proof {
                    assert(pixels@ =~= full_frame(color));
                }
                Ok(
                    RectWrite {
                        rect: Rect { x0: 0, y0: 0, x1: MONITOR_HEIGHT, y1: MONITOR_WIDTH },
                        pixels,
                    },
                )
            },
        }
    }
}

} // verus!
