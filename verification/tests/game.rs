use space_shooter::enemy::Enemy;
use space_shooter::entity::{CollisionMask, Entity, Vector2D};
use space_shooter::game::{frame_tick, Level, PlayingLevel};
use space_shooter::input::ButtonState;
use space_shooter::player::Player;
use space_shooter::sprite::SpritePool;
use space_shooter::X_MAX;

fn buttons(left: bool, right: bool) -> ButtonState {
    ButtonState { left, right, up: false, down: false, fire: false }
}

#[test]
fn entity_new_defaults() {
    let mut pool = SpritePool::new();
    let e = Entity::new(&mut pool, CollisionMask { width: 6, height: 14 });
    assert_eq!(e.sprite, 0);
    assert_eq!(e.position, Vector2D { x: 0, y: 0 });
    assert_eq!(e.velocity, 1);
    assert_eq!(e.collision_mask, CollisionMask { width: 6, height: 14 });
    assert_eq!(pool.len(), 1);
    let slot = pool.slot(0);
    assert_eq!(slot.x, 0);
    assert_eq!(slot.y, 0);
    assert_eq!(slot.priority, 1);
    assert!(!slot.visible);
}

#[test]
fn enemy_new_shows_sprite_at_start() {
    let mut pool = SpritePool::new();
    let enemy = Enemy::new(&mut pool, Vector2D { x: 50, y: 40 });
    assert_eq!(enemy.alien.position, Vector2D { x: 50, y: 40 });
    assert_eq!(enemy.alien.velocity, 1);
    let slot = pool.slot(enemy.alien.sprite);
    assert_eq!(slot.x, 50);
    assert_eq!(slot.y, 40);
    assert!(slot.visible);
}

#[test]
fn player_new_sits_near_bottom() {
    let mut pool = SpritePool::new();
    let player = Player::new(&mut pool);
    assert_eq!(player.space_ship.position, Vector2D { x: 50, y: 130 });
    assert_eq!(player.space_ship.velocity, 1);
    assert_eq!(player.ammo, 0);
    let slot = pool.slot(player.space_ship.sprite);
    assert_eq!(slot.x, 50);
    assert_eq!(slot.y, 130);
    assert!(slot.visible);
}

#[test]
fn enemy_end_to_end_bounce() {
    // Initialise the enemy at x = 50 with v = 1 and max = WIDTH - 16 = 224:
    // 174 ticks reach exactly the wall with the velocity negated; one more
    // tick moves back to 223.
    let mut pool = SpritePool::new();
    let mut enemy = Enemy::new(&mut pool, Vector2D { x: 50, y: 40 });
    for _ in 0..174 {
        enemy.update_frame(&mut pool);
    }
    assert_eq!(enemy.alien.position.x, 224);
    assert_eq!(enemy.alien.velocity, -1);
    enemy.update_frame(&mut pool);
    assert_eq!(enemy.alien.position.x, 223);
    assert_eq!(pool.slot(enemy.alien.sprite).x, 223);
}

#[test]
fn player_left_wall_never_crossed() {
    let mut pool = SpritePool::new();
    let mut player = Player::new(&mut pool);
    player.update_position(&mut pool, 0);
    let held = buttons(true, false);
    for _ in 0..200 {
        player.update_frame(&mut pool, &held);
        assert!(player.space_ship.position.x >= 0);
    }
    assert_eq!(player.space_ship.position.x, 0);
    assert_eq!(pool.slot(player.space_ship.sprite).x, 0);
}

#[test]
fn player_right_wall_never_crossed() {
    let mut pool = SpritePool::new();
    let mut player = Player::new(&mut pool);
    player.update_position(&mut pool, X_MAX);
    let held = buttons(false, true);
    for _ in 0..200 {
        player.update_frame(&mut pool, &held);
        assert!(player.space_ship.position.x <= X_MAX);
    }
    assert_eq!(player.space_ship.position.x, X_MAX);
    assert_eq!(pool.slot(player.space_ship.sprite).x, X_MAX as u16);
}

#[test]
fn player_moves_and_pushes_offset() {
    let mut pool = SpritePool::new();
    let mut player = Player::new(&mut pool);
    player.update_frame(&mut pool, &buttons(true, false));
    assert_eq!(player.space_ship.position.x, 49);
    assert_eq!(pool.slot(player.space_ship.sprite).x, 49);
    player.update_frame(&mut pool, &buttons(false, true));
    assert_eq!(player.space_ship.position.x, 50);
    assert_eq!(pool.slot(player.space_ship.sprite).x, 50);
}

#[test]
fn player_both_buttons_cancel_inside() {
    let mut pool = SpritePool::new();
    let mut player = Player::new(&mut pool);
    player.update_position(&mut pool, 5);
    player.update_frame(&mut pool, &buttons(true, true));
    assert_eq!(player.space_ship.position.x, 5);
}

#[test]
fn idle_buttons_leave_player_still() {
    let mut pool = SpritePool::new();
    let mut player = Player::new(&mut pool);
    let mut enemy = Enemy::new(&mut pool, Vector2D { x: 50, y: 40 });
    let idle = ButtonState::released();
    frame_tick(&mut player, &mut enemy, &mut pool, &idle);
    // Without input the ship stays put while the alien patrols on.
    assert_eq!(player.space_ship.position.x, 50);
    assert_eq!(pool.slot(player.space_ship.sprite).x, 50);
    assert_eq!(enemy.alien.position.x, 51);
}

#[test]
fn player_fire_changes_nothing() {
    let mut pool = SpritePool::new();
    let mut player = Player::new(&mut pool);
    let fire = ButtonState { left: false, right: false, up: false, down: false, fire: true };
    player.update_frame(&mut pool, &fire);
    assert_eq!(player.space_ship.position.x, 50);
    assert_eq!(player.ammo, 0);
}

#[test]
fn open_level_starts_timer_and_player() {
    let level = Level {
        background: vec![],
        foreground: vec![],
        dimensions: (32, 20),
        collision: vec![],
        enemy_stops: vec![],
        start_pos: (50, 130),
    };
    let mut pool = SpritePool::new();
    let playing = PlayingLevel::open_level(&level, &mut pool);
    assert_eq!(playing.timer, 0);
    assert_eq!(playing.player.space_ship.position, Vector2D { x: 50, y: 130 });
    assert_eq!(playing.player.ammo, 0);
    assert_eq!(pool.len(), 1);
}

#[test]
fn frame_tick_moves_both_actors() {
    let mut pool = SpritePool::new();
    let mut player = Player::new(&mut pool);
    let mut enemy = Enemy::new(&mut pool, Vector2D { x: 50, y: 40 });
    frame_tick(&mut player, &mut enemy, &mut pool, &buttons(false, true));
    assert_eq!(player.space_ship.position.x, 51);
    assert_eq!(enemy.alien.position.x, 51);
    assert_eq!(pool.slot(player.space_ship.sprite).x, 51);
    assert_eq!(pool.slot(enemy.alien.sprite).x, 51);
    assert_eq!(pool.len(), 2);
}

#[test]
fn sprite_pool_mutators() {
    let mut pool = SpritePool::new();
    assert_eq!(pool.len(), 0);
    let a = pool.allocate();
    let b = pool.allocate();
    assert_eq!(a, 0);
    assert_eq!(b, 1);
    pool.set_x(a, 7);
    pool.set_y(a, 9);
    pool.set_priority(a, 2);
    pool.show(a);
    let slot = pool.slot(a);
    assert_eq!(slot.x, 7);
    assert_eq!(slot.y, 9);
    assert_eq!(slot.priority, 2);
    assert!(slot.visible);
    // The other slot keeps its freshly allocated state.
    let other = pool.slot(b);
    assert_eq!(other.x, 0);
    assert_eq!(other.y, 0);
    assert_eq!(other.priority, 0);
    assert!(!other.visible);
}
