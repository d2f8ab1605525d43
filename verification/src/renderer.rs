//! Damage-repair rectangle computation.
//!
//! A full-frame rewrite per tick would exceed the bus budget, so a moving
//! tick repaints only two regions: the sprite texture at its new centre,
//! and one trailing strip of backdrop, width x velocity pixels, over the
//! part of the old image the move uncovered.  The corner formulas below
//! are transcribed literally from the device's established write calls;
//! in particular the first write axis runs over panel rows, and a trailing
//! strip may name its corners in descending order.  They are the contract
//! for what reaches the panel, not a derived quantity.

use vstd::prelude::*;

verus! {

use crate::allocator::{AllocationError, Buffer, CapabilityAllocator, MemoryCapability, PIXEL_BYTES};
use crate::player::Direction;
use crate::{Pixel, COLOR_BACKGROUND};

/// Corner coordinates of one rectangle write, as handed to the panel.
#[derive(Clone, Copy, PartialEq, Eq, Structural, Debug)]
pub struct Rect {
    pub x0: u16,
    pub y0: u16,
    pub x1: u16,
    pub y1: u16,
}

/// One pending rectangle write: corner coordinates plus the pixels to send.
pub struct RectWrite {
    pub rect: Rect,
    pub pixels: Buffer,
}

/// The writes one completed move must issue: paint the sprite at its new
/// centre, then repaint the strip of backdrop the move uncovered.
pub struct DamagePlan {
    pub sprite: RectWrite,
    pub trailing: Option<RectWrite>,
}

/// Corners of the sprite image painted for centre `(x, y)` with width `w`:
/// each axis spans `[c - w/2, c + w - w/2]`.
pub open spec fn sprite_rect(x: int, y: int, w: int) -> (int, int, int, int) {
    (x - w / 2, y - w / 2, x + w - w / 2, y + w - w / 2)
}

/// Corners of the trailing strip for a move in direction `d` whose
/// previous centre was `(ox, oy)`, with width `w` and offset `w/2`.
/// `None` when no direction is established, in which case nothing trails.
pub open spec fn trailing_rect(d: Direction, ox: int, oy: int, w: int) -> Option<
    (int, int, int, int),
> {
    let off = w / 2;
    match d {
        Direction::Neutral => None,
        Direction::Up => Some((ox, oy - off, ox - off, oy + w)),
        Direction::Left => Some((ox - off, oy + w - off, ox + off, oy + w - off)),
        Direction::Right => Some((ox - off, oy - off, ox + w, oy)),
        Direction::Down => Some((ox + w - off, oy - off, ox + w - off, oy + w - off)),
    }
}

/// Whether `r` holds exactly the corners `t`.
pub open spec fn rect_is(r: Rect, t: (int, int, int, int)) -> bool {
    &&& r.x0 == t.0
    &&& r.y0 == t.1
    &&& r.x1 == t.2
    &&& r.y1 == t.3
}

/// A row of `n` backdrop pixels.
pub open spec fn background_row(n: nat) -> Seq<Pixel> {
    Seq::new(n, |i: int| Pixel { raw: COLOR_BACKGROUND })
}

/// Centres whose sprite and trailing rectangles all stay representable:
/// at least `w/2` from the low edge and `w` short of the coordinate limit
/// on both axes.
pub open spec fn center_in_range(x: int, y: int, w: int) -> bool {
    &&& w / 2 <= x
    &&& x + w <= u16::MAX
    &&& w / 2 <= y
    &&& y + w <= u16::MAX
}

/// The write that paints the sprite texture at centre `(x, y)`.
pub fn sprite_write(x: u16, y: u16, w: u16, texture: &Buffer) -> (r: RectWrite)
    requires
        center_in_range(x as int, y as int, w as int),
    ensures
        rect_is(r.rect, sprite_rect(x as int, y as int, w as int)),
        r.pixels@ == texture@,
        r.pixels.region() == texture.region(),
{
    let offset: u16 = w / 2;
    RectWrite {
        rect: Rect { x0: x - offset, y0: y - offset, x1: (x + w) - offset, y1: (y + w) - offset },
        pixels: texture.duplicate(),
    }
}

/// The write that repaints the trailing strip of backdrop after a move in
/// direction `d` away from the old centre `(ox, oy)`.
///
/// The strip's pixels are scratch for exactly one write, routed to the
/// bulk region; the request is refused only when that region cannot hold
/// `w` pixels, and the tick is then skipped.
pub fn trailing_write(
    d: Direction,
    ox: u16,
    oy: u16,
    w: u16,
    alloc: &CapabilityAllocator,
) -> (r: Result<Option<RectWrite>, AllocationError>)
    requires
        center_in_range(ox as int, oy as int, w as int),
    ensures
        match r {
            Ok(Some(tw)) => {
                &&& w * PIXEL_BYTES <= alloc.capacity_of(MemoryCapability::Bulk)
                &&& trailing_rect(d, ox as int, oy as int, w as int) matches Some(t)
                    && rect_is(tw.rect, t)
                &&& tw.pixels@ == background_row(w as nat)
                &&& tw.pixels.region() == MemoryCapability::Bulk
            },
            Ok(None) => d is Neutral,
            Err(e) => {
                &&& e == AllocationError::OutOfMemory
                &&& !(d is Neutral)
                &&& w * PIXEL_BYTES > alloc.capacity_of(MemoryCapability::Bulk)
            },
        },
{
    let offset: u16 = w / 2;
    let rect_for: Option<Rect> = match d {
        Direction::Neutral => None,
        Direction::Up => Some(Rect { x0: ox, y0: oy - offset, x1: ox - offset, y1: oy + w }),
        Direction::Left => Some(
            Rect { x0: ox - offset, y0: (oy + w) - offset, x1: ox + offset, y1: (oy + w) - offset },
        ),
        Direction::Right => Some(Rect { x0: ox - offset, y0: oy - offset, x1: ox + w, y1: oy }),
        Direction::Down => Some(
            Rect {
                x0: (ox + w) - offset,
                y0: oy - offset,
                x1: (ox + w) - offset,
                y1: (oy + w) - offset,
            },
        ),
    };
    match rect_for {
        None => Ok(None),
        Some(rect) => match alloc.acquire(MemoryCapability::Bulk, w as usize) {
            Err(e) => Err(e),
            Ok(mut pixels) => {
                pixels.fill(Pixel { raw: COLOR_BACKGROUND });
                proof {
                    assert(pixels@ =~= background_row(w as nat));
                }
                Ok(Some(RectWrite { rect, pixels }))
            },
        },
    }
}

} // verus!
