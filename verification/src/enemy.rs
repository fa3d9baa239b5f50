//! The enemy controller: an alien that patrols the screen autonomously.
//!
//! Each frame the enemy applies the bouncing motion model unconditionally —
//! no input, no interaction with the player — and pushes its new horizontal
//! offset to its sprite slot.

use vstd::prelude::*;

verus! {

use crate::X_MAX;
use crate::entity::{CollisionMask, Entity, Vector2D};
use crate::motion::{motion_step, spec_motion_step};
use crate::sprite::{SpritePool, SpriteSlot};

/// Width of the alien's collision footprint, in pixels.
pub const ALIEN_MASK_WIDTH: u16 = 6;

/// Height of the alien's collision footprint, in pixels.
pub const ALIEN_MASK_HEIGHT: u16 = 14;

/// The collision footprint the alien sprite is created with.
pub open spec fn alien_mask() -> CollisionMask {
    CollisionMask { width: ALIEN_MASK_WIDTH, height: ALIEN_MASK_HEIGHT }
}

/// An autonomously moving enemy.
pub struct Enemy {
    pub alien: Entity,
}

impl Enemy {
    /// Well-formedness against a pool: the alien entity is well-formed.
    pub open spec fn wf(self, slots: Seq<SpriteSlot>) -> bool {
        self.alien.wf(slots)
    }

    /// Creates an enemy at `start_position`, shown on screen, with the
    /// default velocity of one pixel per frame.
    pub fn new(pool: &mut SpritePool, start_position: Vector2D) -> (e: Enemy)
        requires
            0 <= start_position.x <= X_MAX,
            0 <= start_position.y <= u16::MAX,
        ensures
            e.alien.sprite == old(pool)@.len(),
            e.alien.position == start_position,
            e.alien.velocity == 1,
            e.alien.collision_mask == alien_mask(),
            final(pool)@.len() == old(pool)@.len() + 1,
            forall|i: int|
                0 <= i < old(pool)@.len() ==> final(pool)@[i] == old(pool)@[i],
            final(pool)@[e.alien.sprite as int] == (SpriteSlot {
                x: start_position.x as u16,
                y: start_position.y as u16,
                priority: crate::entity::ENTITY_PRIORITY,
                visible: true,
            }),
            e.wf(final(pool)@),
    {
        let mut alien = Entity::new(
            pool,
            CollisionMask { width: ALIEN_MASK_WIDTH, height: ALIEN_MASK_HEIGHT },
        );
        alien.position = start_position;
        pool.set_x(alien.sprite, start_position.x as u16);
        pool.set_y(alien.sprite, start_position.y as u16);
        pool.show(alien.sprite);
        Enemy { alien }
    }

    /// Moves the alien to horizontal position `new_x` and pushes the offset
    /// to its sprite slot.
    pub fn update_position(&mut self, pool: &mut SpritePool, new_x: i32)
        requires
            old(self).wf(old(pool)@),
            0 <= new_x <= X_MAX,
        ensures
            final(self).alien.position.x == new_x,
            final(self).alien.position.y == old(self).alien.position.y,
            final(self).alien.velocity == old(self).alien.velocity,
            final(self).alien.sprite == old(self).alien.sprite,
            final(self).alien.collision_mask == old(self).alien.collision_mask,
            final(pool)@ == old(pool)@.update(
                old(self).alien.sprite as int,
                old(pool)@[old(self).alien.sprite as int].with_x(new_x as u16),
            ),
            final(self).wf(final(pool)@),
    {
        self.alien.position.x = new_x;
        pool.set_x(self.alien.sprite, new_x as u16);
    }

    /// One frame of the alien's autonomous movement: applies the bouncing
    /// motion model to its horizontal position and velocity, and pushes the
    /// new offset to its sprite slot.
    pub fn update_frame(&mut self, pool: &mut SpritePool)
        requires
            old(self).wf(old(pool)@),
        ensures
            final(self).alien.position.x == spec_motion_step(
                old(self).alien.position.x as int,
                old(self).alien.velocity as int,
                X_MAX as int,
            ).0,
            final(self).alien.velocity == spec_motion_step(
                old(self).alien.position.x as int,
                old(self).alien.velocity as int,
                X_MAX as int,
            ).1,
            final(self).alien.position.y == old(self).alien.position.y,
            final(self).alien.sprite == old(self).alien.sprite,
            final(self).alien.collision_mask == old(self).alien.collision_mask,
            final(pool)@ == old(pool)@.update(
                old(self).alien.sprite as int,
                old(pool)@[old(self).alien.sprite as int].with_x(
                    final(self).alien.position.x as u16,
                ),
            ),
            final(self).wf(final(pool)@),
    {
        let (new_x, new_v) = motion_step(self.alien.position.x, self.alien.velocity, X_MAX);
        self.alien.velocity = new_v;
        self.update_position(pool, new_x);
    }
}

} // verus!
