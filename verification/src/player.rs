//! The moving sprite and its movement state machine.
//!
//! A sprite starts unplaced and idle; the first successful placement sets
//! its centre, and from then on each tick may turn it, move it one unit
//! step, and schedule the damage-repair writes for the move.  The whole
//! transition is captured by the spec-level [`step`] relation, which every
//! mutating method is proved to follow.

use vstd::prelude::*;

verus! {

use crate::allocator::{AllocationError, Buffer, CapabilityAllocator, MemoryCapability, PIXEL_BYTES};
use crate::inputs::{is_directional, NUMPAD_DOWN, NUMPAD_IDLE, NUMPAD_LEFT, NUMPAD_RIGHT, NUMPAD_UP};
use crate::renderer::{
    background_row, center_in_range, rect_is, sprite_rect, sprite_write, trailing_rect,
    trailing_write, DamagePlan, RectWrite,
};
use crate::{Pixel, SPRITE_WIDTH};

/// Optional placement of the sprite's centre.  Both coordinates are unset
/// until the first successful placement and set together afterwards; an
/// absent placement is a genuine missing value, never a sentinel
/// coordinate.
#[derive(Clone, Copy, PartialEq, Eq, Debug)]
pub struct PlayerPos {
    pub x: Option<u16>,
    pub y: Option<u16>,
}

/// Motion state of the sprite.
#[derive(Clone, Copy, PartialEq, Eq, Structural, Debug)]
pub enum PlayerState {
    Idle,
    Moving,
}

/// Travel direction of the sprite; `Neutral` before any move.
#[derive(Clone, Copy, PartialEq, Eq, Structural, Debug)]
pub enum Direction {
    Neutral,
    Up,
    Left,
    Right,
    Down,
}

/// Abstract sprite state: the value that contracts and the transition
/// relation speak about.
pub struct PlayerModel {
    pub state: PlayerState,
    pub direction: Direction,
    pub hp: u8,
    pub max_hp: u8,
    pub velocity: u8,
    pub x: Option<u16>,
    pub y: Option<u16>,
    pub texture: Seq<Pixel>,
    pub width: u16,
}

impl PlayerModel {
    /// Both placement coordinates are set.
    pub open spec fn placed(self) -> bool {
        self.x is Some && self.y is Some
    }

    /// Well-formedness: velocity is 0 exactly when idle and 1 exactly
    /// when moving, the two placement coordinates are set together, and
    /// the texture holds exactly width x width pixels.
    pub open spec fn wf(self) -> bool {
        &&& (self.velocity == 0 <==> self.state is Idle)
        &&& (self.velocity == 1 <==> self.state is Moving)
        &&& (self.x is Some <==> self.y is Some)
        &&& self.texture.len() == self.width * self.width
        &&& self.width == SPRITE_WIDTH
    }
}

/// The travel direction a directional pad code commands.
pub open spec fn direction_of(code: u8) -> Direction {
    if code == NUMPAD_UP {
        Direction::Up
    } else if code == NUMPAD_DOWN {
        Direction::Down
    } else if code == NUMPAD_LEFT {
        Direction::Left
    } else if code == NUMPAD_RIGHT {
        Direction::Right
    } else {
        Direction::Neutral
    }
}

/// The centre one unit step in `d` leads to.  Up and Down adjust the
/// first coordinate and Left and Right the second: the first write axis
/// runs over panel rows, so this pairing is the device's established
/// orientation and is reproduced as observed.
pub open spec fn stepped_center(x: u16, y: u16, d: Direction) -> (u16, u16) {
    match d {
        Direction::Up => (((x + 1) as u16), y),
        Direction::Down => (((x - 1) as u16), y),
        Direction::Left => (x, ((y - 1) as u16)),
        Direction::Right => (x, ((y + 1) as u16)),
        Direction::Neutral => (x, y),
    }
}

/// One transition of the movement state machine on pad code `code`: the
/// idle code halts the sprite and keeps its direction; a directional code
/// on a placed sprite turns it, sets unit velocity and moves the centre
/// one step; a directional code before placement is ignored; any other
/// code changes nothing.
pub open spec fn step(m: PlayerModel, code: u8) -> PlayerModel {
    if code == NUMPAD_IDLE {
        PlayerModel { state: PlayerState::Idle, velocity: 0, ..m }
    } else if is_directional(code) && m.placed() {
        let d = direction_of(code);
        let c = stepped_center(m.x->0, m.y->0, d);
        PlayerModel {
            state: PlayerState::Moving,
            velocity: 1,
            direction: d,
            x: Some(c.0),
            y: Some(c.1),
            ..m
        }
    } else {
        m
    }
}

/// The machine run over a whole code sequence, first element first.
pub open spec fn run(m: PlayerModel, codes: Seq<u8>) -> PlayerModel
    decreases codes.len(),
{
    if codes.len() == 0 {
        m
    } else {
        run(step(m, codes[0]), codes.subrange(1, codes.len() as int))
    }
}

/// A transition never unsets a placement.
pub proof fn lemma_step_keeps_placement(m: PlayerModel, code: u8)
    ensures
        m.placed() ==> step(m, code).placed(),
{
}

/// No sequence of pad codes unsets a placement: once the centre is set it
/// is never observed unset again.
pub proof fn lemma_run_keeps_placement(m: PlayerModel, codes: Seq<u8>)
    requires
        m.placed(),
    ensures
        run(m, codes).placed(),
    decreases codes.len(),
{
    if codes.len() > 0 {
        lemma_run_keeps_placement(step(m, codes[0]), codes.subrange(1, codes.len() as int));
    }
}

/// A transition preserves well-formedness; in particular velocity stays 0
/// exactly when idle and 1 exactly when moving in every reachable state.
pub proof fn lemma_step_preserves_wf(m: PlayerModel, code: u8)
    requires
        m.wf(),
    ensures
        step(m, code).wf(),
{
}

/// After any code sequence followed by the idle code the sprite stands
/// still: zero velocity and idle motion, whatever was pressed before.
pub proof fn lemma_idle_after_any_sequence(m: PlayerModel, codes: Seq<u8>)
    ensures
        run(m, codes.push(NUMPAD_IDLE)).velocity == 0,
        run(m, codes.push(NUMPAD_IDLE)).state is Idle,
    decreases codes.len(),
{
    reveal_with_fuel(run, 3);
    if codes.len() == 0 {
        assert(codes.push(NUMPAD_IDLE)[0] == NUMPAD_IDLE);
        assert(codes.push(NUMPAD_IDLE).subrange(1, 1) =~= Seq::<u8>::empty());
        assert(run(m, codes.push(NUMPAD_IDLE)) == step(m, NUMPAD_IDLE));
    } else {
        assert(codes.push(NUMPAD_IDLE)[0] == codes[0]);
        assert(codes.push(NUMPAD_IDLE).subrange(1, codes.len() as int + 1) =~= codes.subrange(
            1,
            codes.len() as int,
        ).push(NUMPAD_IDLE));
        lemma_idle_after_any_sequence(step(m, codes[0]), codes.subrange(1, codes.len() as int));
        assert(run(m, codes.push(NUMPAD_IDLE)) == run(
            step(m, codes[0]),
            codes.subrange(1, codes.len() as int).push(NUMPAD_IDLE),
        ));
    }
}

/// Centres that keep every rectangle representable even after one more
/// unit step on either axis.
pub open spec fn has_step_room(x: int, y: int, w: int) -> bool {
    &&& w / 2 < x
    &&& x + w < u16::MAX
    &&& w / 2 < y
    &&& y + w < u16::MAX
}

/// The moving sprite: kinematic state plus its texture.
pub struct Player {
    state: PlayerState,
    direction: Direction,
    hp: u8,
    max_hp: u8,
    velocity: u8,
    pos: PlayerPos,
    texture_map: Buffer,
    width: u16,
}

impl View for Player {
    type V = PlayerModel;

    closed spec fn view(&self) -> PlayerModel {
        PlayerModel {
            state: self.state,
            direction: self.direction,
            hp: self.hp,
            max_hp: self.max_hp,
            velocity: self.velocity,
            x: self.pos.x,
            y: self.pos.y,
            texture: self.texture_map@,
            width: self.width,
        }
    }
}

impl Player {
    /// Well-formedness of the sprite's state.
    pub open spec fn wf(&self) -> bool {
        self@.wf()
    }

    /// A freshly constructed sprite: unplaced, idle, facing nowhere, at
    /// full health, with the given texture.
    pub fn new(texture_map: Buffer) -> (p: Player)
        requires
            texture_map@.len() == SPRITE_WIDTH * SPRITE_WIDTH,
        ensures
            p.wf(),
            p@.state is Idle,
            p@.direction is Neutral,
            p@.velocity == 0,
            p@.x is None,
            p@.y is None,
            p@.hp == 100,
            p@.max_hp == 100,
            p@.width == SPRITE_WIDTH,
            p@.texture == texture_map@,
    {
        Player {
            state: PlayerState::Idle,
            direction: Direction::Neutral,
            hp: 100,
            max_hp: 100,
            velocity: 0,
            pos: PlayerPos { x: None, y: None },
            texture_map,
            width: SPRITE_WIDTH,
        }
    }

    /// Paints the sprite at centre `(x, y)` and records that placement.
    /// The returned write goes to the display afterwards; the placement
    /// stands whether or not that write then succeeds.
    pub fn draw(&mut self, x: u16, y: u16) -> (w: RectWrite)
        requires
            old(self).wf(),
            center_in_range(x as int, y as int, old(self)@.width as int),
        ensures
            final(self).wf(),
            final(self)@ == (PlayerModel { x: Some(x), y: Some(y), ..old(self)@ }),
            rect_is(w.rect, sprite_rect(x as int, y as int, old(self)@.width as int)),
            w.pixels@ == old(self)@.texture,
    {
        let w = sprite_write(x, y, self.width, &self.texture_map);
        self.pos.x = Some(x);
        self.pos.y = Some(y);
        w
    }

    /// Repaints after a move: the texture at the new centre `(x, y)` and
    /// one trailing strip of backdrop over the old image at `old_pos`.
    /// The new placement is committed whatever later becomes of the
    /// writes; only a refused scratch buffer skips the whole tick and
    /// leaves the sprite as it was.
    pub fn draw_and_clean_dirty_pixels(
        &mut self,
        old_pos: PlayerPos,
        x: u16,
        y: u16,
        alloc: &CapabilityAllocator,
    ) -> (r: Result<DamagePlan, AllocationError>)
        requires
            old(self).wf(),
            center_in_range(x as int, y as int, old(self)@.width as int),
            !(old(self)@.direction is Neutral) ==> {
                &&& old_pos.x is Some
                &&& old_pos.y is Some
                &&& center_in_range(old_pos.x->0 as int, old_pos.y->0 as int, old(self)@.width as int)
            },
        ensures
            final(self).wf(),
            match r {
                Ok(plan) => {
                    &&& final(self)@ == (PlayerModel { x: Some(x), y: Some(y), ..old(self)@ })
                    &&& rect_is(
                        plan.sprite.rect,
                        sprite_rect(x as int, y as int, old(self)@.width as int),
                    )
                    &&& plan.sprite.pixels@ == old(self)@.texture
                    &&& (plan.trailing is Some <==> !(old(self)@.direction is Neutral))
                    &&& plan.trailing matches Some(tw) ==> {
                        &&& trailing_rect(
                            old(self)@.direction,
                            old_pos.x->0 as int,
                            old_pos.y->0 as int,
                            old(self)@.width as int,
                        ) matches Some(t) && rect_is(tw.rect, t)
                        &&& tw.pixels@ == background_row(old(self)@.width as nat)
                    }
                },
                Err(e) => {
                    &&& e == AllocationError::OutOfMemory
                    &&& !(old(self)@.direction is Neutral)
                    &&& old(self)@.width * PIXEL_BYTES > alloc.capacity_of(MemoryCapability::Bulk)
                    &&& *final(self) == *old(self)
                },
            },
    {
        let trailing_r: Result<Option<RectWrite>, AllocationError> = match self.direction {
            Direction::Neutral => Ok(None),
            _ => match (old_pos.x, old_pos.y) {
                (Some(ox), Some(oy)) => trailing_write(self.direction, ox, oy, self.width, alloc),
                _ => {
                    proof {
                        assert(false);
                    }
                    Ok(None)
                },
            },
        };
        match trailing_r {
            Err(e) => Err(e),
            Ok(trailing) => {
                let sprite = sprite_write(x, y, self.width, &self.texture_map);
                self.pos.x = Some(x);
                self.pos.y = Some(y);
                Ok(DamagePlan { sprite, trailing })
            },
        }
    }

    /// One control tick: steps the movement machine on the decoded pad
    /// code in `input` and, when the step moved the sprite, hands back
    /// the damage-repair writes for it.  The auxiliary token in `input`
    /// does not influence movement.
    ///
    /// The idle code halts the sprite; a directional code before the
    /// first placement is silently ignored; any other code leaves the
    /// state untouched.  A move that cannot route its scratch strip skips
    /// the whole tick and reports the refusal.
    pub fn update_state(&mut self, input: (u8, String), alloc: &CapabilityAllocator) -> (r: Result<
        Option<DamagePlan>,
        AllocationError,
    >)
        requires
            old(self).wf(),
            old(self)@.placed() ==> has_step_room(
                old(self)@.x->0 as int,
                old(self)@.y->0 as int,
                old(self)@.width as int,
            ),
        ensures
            final(self).wf(),
            old(self)@.placed() ==> final(self)@.placed(),
            match r {
                Ok(plan_opt) => {
                    &&& final(self)@ == step(old(self)@, input.0)
                    &&& (plan_opt is Some <==> is_directional(input.0) && old(self)@.placed())
                    &&& plan_opt matches Some(plan) ==> {
                        let d = direction_of(input.0);
                        let ox = old(self)@.x->0;
                        let oy = old(self)@.y->0;
                        let c = stepped_center(ox, oy, d);
                        &&& rect_is(
                            plan.sprite.rect,
                            sprite_rect(c.0 as int, c.1 as int, old(self)@.width as int),
                        )
                        &&& plan.sprite.pixels@ == old(self)@.texture
                        &&& plan.trailing matches Some(tw) && trailing_rect(
                            d,
                            ox as int,
                            oy as int,
                            old(self)@.width as int,
                        ) matches Some(t) && rect_is(tw.rect, t)
                        &&& plan.trailing matches Some(tw) && tw.pixels@ == background_row(
                            old(self)@.width as nat,
                        )
                    }
                },
                Err(e) => {
                    &&& e == AllocationError::OutOfMemory
                    &&& is_directional(input.0) && old(self)@.placed()
                    &&& old(self)@.width * PIXEL_BYTES > alloc.capacity_of(MemoryCapability::Bulk)
                    &&& *final(self) == *old(self)
                },
            },
    {
        let code = input.0;
        if code == NUMPAD_IDLE {
            self.state = PlayerState::Idle;
            self.velocity = 0;
            return Ok(None);
        }
        let directional = code == NUMPAD_UP || code == NUMPAD_DOWN || code == NUMPAD_LEFT || code
            == NUMPAD_RIGHT;
        if !directional {
            return Ok(None);
        }
        let (ox, oy) = match (self.pos.x, self.pos.y) {
            (Some(ox), Some(oy)) => (ox, oy),
            _ => {
                return Ok(None);
            },
        };
        // Refuse the tick up front when the scratch strip cannot be routed,
        // so a refused tick leaves no trace on the state.
        if self.width as usize * PIXEL_BYTES > alloc.capacity(MemoryCapability::Bulk) {
            return Err(AllocationError::OutOfMemory);
        }
        self.state = PlayerState::Moving;
        self.velocity = 1;
        let old_pos = self.pos;
        let (d, nx, ny) = if code == NUMPAD_UP {
            (Direction::Up, ox + 1, oy)
        } else if code == NUMPAD_DOWN {
            (Direction::Down, ox - 1, oy)
        } else if code == NUMPAD_LEFT {
            (Direction::Left, ox, oy - 1)
        } else {
            (Direction::Right, ox, oy + 1)
        };
        self.direction = d;
        match self.draw_and_clean_dirty_pixels(old_pos, nx, ny, alloc) {
            Ok(plan) => Ok(Some(plan)),
            Err(e) => {
                proof {
                    assert(false);
                }
                Err(e)
            },
        }
    }

    /// The current placement, both coordinates at once.
    pub fn position(&self) -> (p: Option<(u16, u16)>)
        ensures
            p is Some <==> self@.placed(),
            p matches Some(c) ==> c.0 == self@.x->0 && c.1 == self@.y->0,
    {
        match (self.pos.x, self.pos.y) {
            (Some(x), Some(y)) => Some((x, y)),
            _ => None,
        }
    }

    /// The current placement as stored.
    pub fn pos(&self) -> (p: PlayerPos)
        ensures
            p.x == self@.x,
            p.y == self@.y,
    {
        self.pos
    }

    /// The motion state.
    pub fn state(&self) -> (s: PlayerState)
        ensures
            s == self@.state,
    {
        self.state
    }

    /// The travel direction.
    pub fn direction(&self) -> (d: Direction)
        ensures
            d == self@.direction,
    {
        self.direction
    }

    /// The current speed in pixels per tick.
    pub fn velocity(&self) -> (v: u8)
        ensures
            v == self@.velocity,
    {
        self.velocity
    }

    /// Current health.
    pub fn hp(&self) -> (h: u8)
        ensures
            h == self@.hp,
    {
        self.hp
    }

    /// Health ceiling.
    pub fn max_hp(&self) -> (h: u8)
        ensures
            h == self@.max_hp,
    {
        self.max_hp
    }

    /// Side length of the texture.
    pub fn width(&self) -> (w: u16)
        ensures
            w == self@.width,
    {
        self.width
    }

    /// The sprite texture.
    pub fn texture(&self) -> (t: &Buffer)
        ensures
            t@ == self@.texture,
    {
        &self.texture_map
    }
}

} // verus!
