//! Core logic of a small fixed-screen shoot-em-up for a handheld console.
//!
//! The library holds everything about the game that can be stated and proved:
//! the bouncing one-dimensional motion model, the input-driven player
//! controller, the autonomous enemy controller, and the per-frame update that
//! drives them both. The console's hardware layer (sprite objects, button
//! polling, vertical-blank synchronisation) stays outside; the library models
//! the pending sprite attributes as plain data in a [`sprite::SpritePool`],
//! and the host commits them to the display once per frame.

use vstd::prelude::*;

pub mod enemy;
pub mod entity;
pub mod game;
pub mod input;
pub mod motion;
pub mod player;
pub mod sprite;

verus! {

/// Width of the visible screen, in pixels.
pub const SCREEN_WIDTH: i32 = 240;

/// Height of the visible screen, in pixels.
pub const SCREEN_HEIGHT: i32 = 160;

/// Width of one sprite, in pixels.
pub const SPRITE_WIDTH: i32 = 16;

/// Largest horizontal position at which a sprite still sits fully on screen:
/// every entity's horizontal position is kept within `[0, X_MAX]`.
pub const X_MAX: i32 = SCREEN_WIDTH - SPRITE_WIDTH;

} // verus!
