//! The movable, renderable actor shared by the player and the enemies.
//!
//! An entity owns its screen-space position and horizontal velocity as plain
//! integers, a collision footprint (declared for a collision system that is
//! not part of this core), and the index of its sprite slot in the pool. Its
//! well-formedness ties the two together: the horizontal position stays
//! within `[0, X_MAX]`, and the sprite slot mirrors the position.

use vstd::prelude::*;

verus! {

use crate::X_MAX;
use crate::sprite::{SpritePool, SpriteSlot, fresh_slot};

/// A two-dimensional integer coordinate in screen space.
#[derive(Clone, Copy, Debug, PartialEq, Eq, Structural)]
pub struct Vector2D {
    pub x: i32,
    pub y: i32,
}

/// The width and height of an entity's collision footprint, in pixels.
/// Declared by the design but read by no implemented logic.
#[derive(Clone, Copy, Debug, PartialEq, Eq, Structural)]
pub struct CollisionMask {
    pub width: u16,
    pub height: u16,
}

/// The render priority every entity's sprite is created with.
pub const ENTITY_PRIORITY: u8 = 1;

/// A movable, renderable actor.
pub struct Entity {
    /// Index of this entity's slot in the sprite pool.
    pub sprite: usize,
    /// Screen-space position; the motion model moves `position.x` only.
    pub position: Vector2D,
    /// Horizontal velocity, in pixels per frame.
    pub velocity: i32,
    /// Collision footprint; unused by any implemented logic.
    pub collision_mask: CollisionMask,
}

impl Entity {
    /// The entity's own invariant: the horizontal position is clamped to the
    /// screen, the vertical position fits the sprite slot's offset field, and
    /// the velocity can always be negated.
    pub open spec fn inv(self) -> bool {
        &&& 0 <= self.position.x <= X_MAX
        &&& 0 <= self.position.y <= u16::MAX
        &&& self.velocity != i32::MIN
    }

    /// The sprite slot mirrors the entity: the slot index is live and the
    /// slot's screen offsets carry the entity's position.
    pub open spec fn synced(self, slots: Seq<SpriteSlot>) -> bool {
        &&& self.sprite < slots.len()
        &&& slots[self.sprite as int].x == self.position.x as u16
        &&& slots[self.sprite as int].y == self.position.y as u16
    }

    /// Well-formedness against a pool: the invariant holds and the sprite
    /// slot mirrors the entity.
    pub open spec fn wf(self, slots: Seq<SpriteSlot>) -> bool {
        self.inv() && self.synced(slots)
    }

    /// Creates an entity backed by a freshly allocated sprite slot, parked at
    /// the origin with the default velocity of one pixel per frame.
    pub fn new(pool: &mut SpritePool, collision_mask: CollisionMask) -> (e: Entity)
        ensures
            e.sprite == old(pool)@.len(),
            e.position == (Vector2D { x: 0, y: 0 }),
            e.velocity == 1,
            e.collision_mask == collision_mask,
            final(pool)@ == old(pool)@.push(fresh_slot().with_priority(ENTITY_PRIORITY)),
            e.wf(final(pool)@),
    {
        let idx = pool.allocate();
        pool.set_priority(idx, ENTITY_PRIORITY);
        proof {
            assert(pool@ =~= old(pool)@.push(fresh_slot().with_priority(ENTITY_PRIORITY)));
        }
        Entity {
            sprite: idx,
            position: Vector2D { x: 0, y: 0 },
            velocity: 1,
            collision_mask,
        }
    }
}

} // verus!
