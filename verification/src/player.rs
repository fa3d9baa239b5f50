//! The player controller: a ship moved by the directional buttons.
//!
//! Each frame the controller reads a snapshot of the buttons. While "left" is
//! held and the ship is not at the left wall it moves one pixel left; while
//! "right" is held and the ship is not at the right wall it moves one pixel
//! right. The two checks are independent, so a frame with both buttons held
//! evaluates both in turn. The fire button is reserved for spawning a
//! projectile and changes nothing in this core.

use vstd::prelude::*;

verus! {

use crate::{SCREEN_HEIGHT, X_MAX};
use crate::entity::{CollisionMask, Entity, Vector2D};
use crate::input::ButtonState;
use crate::sprite::{SpritePool, SpriteSlot};

/// Width of the ship's collision footprint, in pixels.
pub const SHIP_MASK_WIDTH: u16 = 6;

/// Height of the ship's collision footprint, in pixels.
pub const SHIP_MASK_HEIGHT: u16 = 14;

/// The collision footprint the ship sprite is created with.
pub open spec fn ship_mask() -> CollisionMask {
    CollisionMask { width: SHIP_MASK_WIDTH, height: SHIP_MASK_HEIGHT }
}

/// How far above the bottom edge of the screen the ship sits.
pub const BOTTOM_OF_SCREEN_OFFSET: i32 = 30;

/// The ship's starting horizontal position.
pub const PLAYER_START_X: i32 = 50;

/// The ship's fixed vertical position, near the bottom of the screen.
pub const PLAYER_START_Y: i32 = SCREEN_HEIGHT - BOTTOM_OF_SCREEN_OFFSET;

/// One frame of the player's input-driven movement: a held "left" moves one
/// pixel left unless the position is already `0`, then a held "right" moves
/// one pixel right unless the position is already `max`.
pub open spec fn spec_player_step(x: int, left: bool, right: bool, max: int) -> int {
    let x1 = if left && x != 0 {
        x - 1
    } else {
        x
    };
    if right && x1 != max {
        x1 + 1
    } else {
        x1
    }
}

/// The player step applied `n` frames in a row with the same buttons held.
pub open spec fn spec_player_iter(x: int, left: bool, right: bool, max: int, n: nat) -> int
    decreases n,
{
    if n == 0 {
        x
    } else {
        spec_player_iter(spec_player_step(x, left, right, max), left, right, max, (n - 1) as nat)
    }
}

/// The input-driven ship.
pub struct Player {
    pub space_ship: Entity,
    /// Rounds of ammunition; counted by the design but never incremented or
    /// consumed by any implemented logic.
    pub ammo: u32,
}

impl Player {
    /// Well-formedness against a pool: the ship entity is well-formed.
    pub open spec fn wf(self, slots: Seq<SpriteSlot>) -> bool {
        self.space_ship.wf(slots)
    }

    /// Creates the player's ship near the bottom of the screen, shown, with
    /// an empty ammo counter.
    pub fn new(pool: &mut SpritePool) -> (p: Player)
        ensures
            p.space_ship.sprite == old(pool)@.len(),
            p.space_ship.position == (Vector2D { x: PLAYER_START_X, y: PLAYER_START_Y }),
            p.space_ship.velocity == 1,
            p.space_ship.collision_mask == ship_mask(),
            p.ammo == 0,
            final(pool)@.len() == old(pool)@.len() + 1,
            forall|i: int|
                0 <= i < old(pool)@.len() ==> final(pool)@[i] == old(pool)@[i],
            final(pool)@[p.space_ship.sprite as int] == (SpriteSlot {
                x: PLAYER_START_X as u16,
                y: PLAYER_START_Y as u16,
                priority: crate::entity::ENTITY_PRIORITY,
                visible: true,
            }),
            p.wf(final(pool)@),
    {
        let mut space_ship = Entity::new(
            pool,
            CollisionMask { width: SHIP_MASK_WIDTH, height: SHIP_MASK_HEIGHT },
        );
        space_ship.position = Vector2D { x: PLAYER_START_X, y: PLAYER_START_Y };
        pool.set_x(space_ship.sprite, PLAYER_START_X as u16);
        pool.set_y(space_ship.sprite, PLAYER_START_Y as u16);
        pool.show(space_ship.sprite);
        Player { space_ship, ammo: 0 }
    }

    /// Moves the ship to horizontal position `new_x` and pushes the offset to
    /// its sprite slot.
    pub fn update_position(&mut self, pool: &mut SpritePool, new_x: i32)
        requires
            old(self).wf(old(pool)@),
            0 <= new_x <= X_MAX,
        ensures
            final(self).space_ship.position.x == new_x,
            final(self).space_ship.position.y == old(self).space_ship.position.y,
            final(self).space_ship.velocity == old(self).space_ship.velocity,
            final(self).space_ship.sprite == old(self).space_ship.sprite,
            final(self).space_ship.collision_mask == old(self).space_ship.collision_mask,
            final(self).ammo == old(self).ammo,
            final(pool)@ == old(pool)@.update(
                old(self).space_ship.sprite as int,
                old(pool)@[old(self).space_ship.sprite as int].with_x(new_x as u16),
            ),
            final(self).wf(final(pool)@),
    {
        self.space_ship.position.x = new_x;
        pool.set_x(self.space_ship.sprite, new_x as u16);
    }

    /// One frame of the input-driven movement: applies the player step for
    /// the held buttons and pushes the resulting offset to the ship's sprite
    /// slot. The fire button is read by the design but performs no action.
    pub fn update_frame(&mut self, pool: &mut SpritePool, input: &ButtonState)
        requires
            old(self).wf(old(pool)@),
        ensures
            final(self).space_ship.position.x == spec_player_step(
                old(self).space_ship.position.x as int,
                input.left,
                input.right,
                X_MAX as int,
            ),
            final(self).space_ship.position.y == old(self).space_ship.position.y,
            final(self).space_ship.velocity == old(self).space_ship.velocity,
            final(self).space_ship.sprite == old(self).space_ship.sprite,
            final(self).space_ship.collision_mask == old(self).space_ship.collision_mask,
            final(self).ammo == old(self).ammo,
            final(pool)@.len() == old(pool)@.len(),
            final(pool)@[old(self).space_ship.sprite as int] == old(pool)@[
                old(self).space_ship.sprite as int
            ].with_x(final(self).space_ship.position.x as u16),
            forall|j: int|
                0 <= j < old(pool)@.len() && j != old(self).space_ship.sprite as int
                    ==> final(pool)@[j] == old(pool)@[j],
            final(self).wf(final(pool)@),
    {
        if input.left {
            let new_x = if self.space_ship.position.x == 0 {
                self.space_ship.position.x
            } else {
                self.space_ship.position.x - 1
            };
            self.update_position(pool, new_x);
        }
        if input.right {
            let new_x = if self.space_ship.position.x == X_MAX {
                self.space_ship.position.x
            } else {
                self.space_ship.position.x + 1
            };
            self.update_position(pool, new_x);
        }
    }
}

/// One player step keeps the position inside `[0, max]`.
pub proof fn lemma_player_step_in_bounds(x: int, left: bool, right: bool, max: int)
    requires
        0 <= x <= max,
    ensures
        0 <= spec_player_step(x, left, right, max) <= max,
{
}

/// The entity invariant over a whole run: starting anywhere inside
/// `[0, max]`, the player's position is still inside `[0, max]` after any
/// number of frames, whatever buttons are held.
pub proof fn lemma_player_iter_in_bounds(x: int, left: bool, right: bool, max: int, n: nat)
    requires
        0 <= x <= max,
    ensures
        0 <= spec_player_iter(x, left, right, max, n) <= max,
    decreases n,
{
    if n > 0 {
        lemma_player_iter_in_bounds(
            spec_player_step(x, left, right, max),
            left,
            right,
            max,
            (n - 1) as nat,
        );
    }
}

/// Left-wall safety: with "left" held at the left wall, the position never
/// drops below zero, however many consecutive frames the button stays held —
/// it stays exactly at the wall.
pub proof fn lemma_left_wall_holds(max: int, n: nat)
    requires
        0 <= max,
    ensures
        spec_player_iter(0, true, false, max, n) == 0,
        spec_player_iter(0, true, false, max, n) >= 0,
    decreases n,
{
    if n > 0 {
        assert(spec_player_step(0, true, false, max) == 0);
        lemma_left_wall_holds(max, (n - 1) as nat);
    }
}

/// Right-wall safety: with "right" held at the right wall, the position never
/// exceeds `max`, however many consecutive frames the button stays held — it
/// stays exactly at the wall.
pub proof fn lemma_right_wall_holds(max: int, n: nat)
    requires
        0 <= max,
    ensures
        spec_player_iter(max, false, true, max, n) == max,
        spec_player_iter(max, false, true, max, n) <= max,
    decreases n,
{
    if n > 0 {
        assert(spec_player_step(max, false, true, max) == max);
        lemma_right_wall_holds(max, (n - 1) as nat);
    }
}

} // verus!
