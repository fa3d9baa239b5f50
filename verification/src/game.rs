//! The frame loop's decision core and the game's remaining data records.
//!
//! The host hardware layer runs the loop itself: once per frame it polls the
//! buttons, hands the snapshot to [`frame_tick`], blocks until the display's
//! vertical blank, and commits the pool's sprite attributes to the display.
//! Everything the frame decides — how the player and the enemy move and what
//! the sprite slots must show afterwards — is in the library and proved here.

use vstd::prelude::*;

verus! {

use crate::X_MAX;
use crate::enemy::Enemy;
use crate::entity::Vector2D;
use crate::input::ButtonState;
use crate::motion::spec_motion_step;
use crate::player::{Player, PLAYER_START_X, PLAYER_START_Y, spec_player_step};
use crate::sprite::{SpritePool, SpriteSlot};

/// Static data of one level: tile layers, dimensions, a collision map and
/// enemy patrol stops. Declared by the design; no implemented logic reads it.
pub struct Level {
    pub background: Vec<u16>,
    pub foreground: Vec<u16>,
    pub dimensions: (u32, u32),
    pub collision: Vec<u32>,
    pub enemy_stops: Vec<(i32, i32)>,
    pub start_pos: (i32, i32),
}

/// A projectile fired by the player. The design reserves the fire button for
/// spawning one, but no projectile behaviour is part of this core, so the
/// type carries no data.
pub struct Ammo {}

/// The running state of one level: a frame counter and the player it drives.
pub struct PlayingLevel {
    pub timer: i32,
    pub player: Player,
}

impl PlayingLevel {
    /// Opens a level: starts the frame counter at zero and creates the
    /// player's ship in the sprite pool.
    pub fn open_level(_level: &Level, pool: &mut SpritePool) -> (pl: PlayingLevel)
        ensures
            pl.timer == 0,
            pl.player.space_ship.sprite == old(pool)@.len(),
            pl.player.space_ship.position == (Vector2D { x: PLAYER_START_X, y: PLAYER_START_Y }),
            pl.player.space_ship.velocity == 1,
            pl.player.ammo == 0,
            final(pool)@.len() == old(pool)@.len() + 1,
            forall|i: int|
                0 <= i < old(pool)@.len() ==> final(pool)@[i] == old(pool)@[i],
            pl.player.wf(final(pool)@),
    {
        PlayingLevel { timer: 0, player: Player::new(pool) }
    }
}

/// Well-formedness of the whole running game: the player and the enemy are
/// each well-formed against the pool and own distinct sprite slots.
pub open spec fn game_wf(player: Player, enemy: Enemy, slots: Seq<SpriteSlot>) -> bool {
    &&& player.wf(slots)
    &&& enemy.wf(slots)
    &&& player.space_ship.sprite != enemy.alien.sprite
}

/// One frame of the game: the player moves by the held buttons, then the
/// enemy moves by the bouncing motion model, and both sprite slots carry the
/// new offsets. The host performs this between polling the buttons and
/// committing the pool to the display.
pub fn frame_tick(
    player: &mut Player,
    enemy: &mut Enemy,
    pool: &mut SpritePool,
    input: &ButtonState,
)
    requires
        game_wf(*old(player), *old(enemy), old(pool)@),
    ensures
        final(player).space_ship.position.x == spec_player_step(
            old(player).space_ship.position.x as int,
            input.left,
            input.right,
            X_MAX as int,
        ),
        final(player).space_ship.position.y == old(player).space_ship.position.y,
        final(player).space_ship.velocity == old(player).space_ship.velocity,
        final(player).space_ship.sprite == old(player).space_ship.sprite,
        final(player).ammo == old(player).ammo,
        final(enemy).alien.position.x == spec_motion_step(
            old(enemy).alien.position.x as int,
            old(enemy).alien.velocity as int,
            X_MAX as int,
        ).0,
        final(enemy).alien.velocity == spec_motion_step(
            old(enemy).alien.position.x as int,
            old(enemy).alien.velocity as int,
            X_MAX as int,
        ).1,
        final(enemy).alien.position.y == old(enemy).alien.position.y,
        final(enemy).alien.sprite == old(enemy).alien.sprite,
        final(pool)@.len() == old(pool)@.len(),
        final(pool)@[old(player).space_ship.sprite as int] == old(pool)@[
            old(player).space_ship.sprite as int
        ].with_x(final(player).space_ship.position.x as u16),
        final(pool)@[old(enemy).alien.sprite as int] == old(pool)@[
            old(enemy).alien.sprite as int
        ].with_x(final(enemy).alien.position.x as u16),
        forall|j: int|
            0 <= j < old(pool)@.len() && j != old(player).space_ship.sprite as int
                && j != old(enemy).alien.sprite as int ==> final(pool)@[j] == old(pool)@[j],
        game_wf(*final(player), *final(enemy), final(pool)@),
{
    player.update_frame(pool, input);
    enemy.update_frame(pool);
}

} // verus!
