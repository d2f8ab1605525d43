use sprite_core::allocator::{AllocationError, CapabilityAllocator, MemoryCapability};
use sprite_core::inputs::{NUMPAD_IDLE, NUMPAD_LEFT, NUMPAD_SELECT, NUMPAD_UP};
use sprite_core::player::{Direction, Player, PlayerState};
use sprite_core::{Pixel, COLOR_BACKGROUND, COLOR_PLAYER, SPRITE_WIDTH};

const FAST_BYTES: usize = 98768;
const BULK_BYTES: usize = 4 * 1024 * 1024;

fn allocator() -> CapabilityAllocator {
    CapabilityAllocator::new(FAST_BYTES, BULK_BYTES)
}

fn fresh_player(alloc: &CapabilityAllocator) -> Player {
    let count = SPRITE_WIDTH as usize * SPRITE_WIDTH as usize;
    let mut texture = alloc.acquire(MemoryCapability::Bulk, count).unwrap();
    texture.fill(Pixel { raw: COLOR_PLAYER });
    Player::new(texture)
}

#[test]
fn new_player_is_unplaced_and_idle() {
    let alloc = allocator();
    let p = fresh_player(&alloc);
    assert_eq!(p.position(), None);
    assert_eq!(p.state(), PlayerState::Idle);
    assert_eq!(p.direction(), Direction::Neutral);
    assert_eq!(p.velocity(), 0);
    assert_eq!(p.hp(), 100);
    assert_eq!(p.max_hp(), 100);
    assert_eq!(p.width(), SPRITE_WIDTH);
}

#[test]
fn directional_input_before_placement_is_ignored() {
    let alloc = allocator();
    let mut p = fresh_player(&alloc);
    let r = p.update_state((NUMPAD_UP, String::new()), &alloc).unwrap();
    assert!(r.is_none());
    assert_eq!(p.position(), None);
    assert_eq!(p.state(), PlayerState::Idle);
    assert_eq!(p.velocity(), 0);
}

#[test]
fn draw_places_the_sprite_and_covers_the_texture_rect() {
    let alloc = allocator();
    let mut p = fresh_player(&alloc);
    let w = p.draw(120, 160);
    assert_eq!(p.position(), Some((120, 160)));
    // each axis spans [centre - 16, centre + 16] for width 32
    assert_eq!((w.rect.x0, w.rect.y0, w.rect.x1, w.rect.y1), (104, 144, 136, 176));
    assert_eq!(w.pixels.len(), 32 * 32);
    for i in 0..w.pixels.len() {
        assert_eq!(w.pixels.get(i), Pixel { raw: COLOR_PLAYER });
    }
}

#[test]
fn placement_is_never_unset_again() {
    let alloc = allocator();
    let mut p = fresh_player(&alloc);
    assert_eq!(p.position(), None);
    p.draw(100, 100);
    for code in [NUMPAD_IDLE, NUMPAD_UP, NUMPAD_SELECT, NUMPAD_LEFT, 0u8, NUMPAD_IDLE] {
        p.update_state((code, String::new()), &alloc).unwrap();
        assert!(p.position().is_some());
    }
}

#[test]
fn velocity_is_zero_iff_idle_and_one_iff_moving() {
    let alloc = allocator();
    let mut p = fresh_player(&alloc);
    p.draw(100, 100);
    assert_eq!((p.velocity(), p.state()), (0, PlayerState::Idle));
    p.update_state((NUMPAD_UP, String::new()), &alloc).unwrap();
    assert_eq!((p.velocity(), p.state()), (1, PlayerState::Moving));
    p.update_state((NUMPAD_IDLE, String::new()), &alloc).unwrap();
    assert_eq!((p.velocity(), p.state()), (0, PlayerState::Idle));
}

#[test]
fn idle_code_halts_after_any_directional_sequence() {
    let alloc = allocator();
    let mut p = fresh_player(&alloc);
    p.draw(100, 100);
    for code in [NUMPAD_UP, NUMPAD_UP, NUMPAD_LEFT, NUMPAD_UP] {
        p.update_state((code, String::new()), &alloc).unwrap();
    }
    p.update_state((NUMPAD_IDLE, String::new()), &alloc).unwrap();
    assert_eq!(p.velocity(), 0);
    assert_eq!(p.state(), PlayerState::Idle);
}

#[test]
fn other_buttons_leave_motion_state_unchanged() {
    let alloc = allocator();
    let mut p = fresh_player(&alloc);
    p.draw(100, 100);
    p.update_state((NUMPAD_UP, String::new()), &alloc).unwrap();
    assert_eq!(p.state(), PlayerState::Moving);
    let r = p.update_state((NUMPAD_SELECT, String::new()), &alloc).unwrap();
    assert!(r.is_none());
    assert_eq!(p.state(), PlayerState::Moving);
    assert_eq!(p.velocity(), 1);
    assert_eq!(p.position(), Some((101, 100)));
}

#[test]
fn five_tick_sequence_moves_two_up_one_left() {
    let alloc = allocator();
    let mut p = fresh_player(&alloc);
    p.draw(100, 100);
    // Up and Down adjust the first coordinate, Left and Right the second
    for code in [NUMPAD_IDLE, NUMPAD_UP, NUMPAD_UP, NUMPAD_LEFT, NUMPAD_IDLE] {
        p.update_state((code, String::new()), &alloc).unwrap();
    }
    assert_eq!(p.position(), Some((102, 99)));
    assert_eq!(p.state(), PlayerState::Idle);
    assert_eq!(p.velocity(), 0);
}

#[test]
fn up_move_from_center_repaints_the_documented_trailing_strip() {
    let alloc = allocator();
    let mut p = fresh_player(&alloc);
    p.draw(100, 100);
    let plan = p.update_state((NUMPAD_UP, String::new()), &alloc).unwrap().unwrap();
    // sprite is repainted around the new centre (101, 100)
    assert_eq!(
        (plan.sprite.rect.x0, plan.sprite.rect.y0, plan.sprite.rect.x1, plan.sprite.rect.y1),
        (85, 84, 117, 116)
    );
    // trailing strip from the table: first axis [100, 84], second [84, 132]
    let tw = plan.trailing.unwrap();
    assert_eq!((tw.rect.x0, tw.rect.y0, tw.rect.x1, tw.rect.y1), (100, 84, 84, 132));
    assert_eq!(tw.pixels.len(), 32);
    for i in 0..tw.pixels.len() {
        assert_eq!(tw.pixels.get(i), Pixel { raw: COLOR_BACKGROUND });
    }
    assert_eq!(tw.pixels.capability(), MemoryCapability::Bulk);
}

#[test]
fn dropped_trailing_write_still_commits_the_position() {
    let alloc = allocator();
    let mut p = fresh_player(&alloc);
    p.draw(100, 100);
    let plan = p.update_state((NUMPAD_UP, String::new()), &alloc).unwrap().unwrap();
    // the display refused both writes: the plan is discarded unused
    drop(plan);
    assert_eq!(p.position(), Some((101, 100)));
}

#[test]
fn repaint_without_a_direction_has_no_trailing_strip() {
    let alloc = allocator();
    let mut p = fresh_player(&alloc);
    p.draw(100, 100);
    let old_pos = p.pos();
    // direction is still Neutral: only the sprite itself is repainted
    let plan = p.draw_and_clean_dirty_pixels(old_pos, 100, 101, &alloc).unwrap();
    assert!(plan.trailing.is_none());
    assert_eq!(
        (plan.sprite.rect.x0, plan.sprite.rect.y0, plan.sprite.rect.x1, plan.sprite.rect.y1),
        (84, 85, 116, 117)
    );
    assert_eq!(p.position(), Some((100, 101)));
}

#[test]
fn exhausted_bulk_region_skips_the_tick() {
    let roomy = allocator();
    let mut p = fresh_player(&roomy);
    p.draw(100, 100);
    // no bulk room at all for the trailing scratch strip
    let cramped = CapabilityAllocator::new(FAST_BYTES, 0);
    let r = p.update_state((NUMPAD_UP, String::new()), &cramped);
    assert_eq!(r.err().unwrap(), AllocationError::OutOfMemory);
    assert_eq!(p.position(), Some((100, 100)));
    assert_eq!(p.state(), PlayerState::Idle);
    assert_eq!(p.velocity(), 0);
}
