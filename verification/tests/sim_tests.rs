//! Tests of the simulation step: firing, player clamping, entity motion
//! and despawn, and the round machine.

use galaxy_monkey::round::{round_machine_step, RoundTransition};
use galaxy_monkey::sim::{
    fire_projectile, update_enemies, update_player, update_projectiles,
};
use galaxy_monkey::structs::{GameState, Spaceship, State, Vector2};
use galaxy_monkey::{
    ENEMY_SPAWN_Y_UNITS, PLAYER_MAX_X_UNITS, PLAYER_MAX_Y_UNITS, PROJECTILE_SPEED_UNITS,
    SCREEN_HEIGHT_UNITS, SCREEN_WIDTH_UNITS, UNITS_PER_PIXEL,
};

fn playing_state() -> GameState {
    let mut gs = GameState::new();
    gs.state = State::Playing;
    gs
}

#[test]
fn firing_right_gives_full_speed_right() {
    let gs = playing_state();
    let p = fire_projectile(&gs.player, Vector2 { x: UNITS_PER_PIXEL, y: 0 });
    assert_eq!(p.velocity.x, PROJECTILE_SPEED_UNITS);
    assert_eq!(p.velocity.y, 0);
    // spawned half a player width into the player's square
    assert_eq!(p.position.x, gs.player.position.x + 25 * UNITS_PER_PIXEL);
    assert_eq!(p.position.y, gs.player.position.y + 25 * UNITS_PER_PIXEL);
}

#[test]
fn firing_left_gives_full_speed_left() {
    let gs = playing_state();
    let p = fire_projectile(&gs.player, Vector2 { x: -UNITS_PER_PIXEL, y: 0 });
    assert_eq!(p.velocity.x, -PROJECTILE_SPEED_UNITS);
    assert_eq!(p.velocity.y, 0);
}

#[test]
fn firing_straight_up_or_down_is_vertical() {
    let gs = playing_state();
    let p = fire_projectile(&gs.player, Vector2 { x: 0, y: UNITS_PER_PIXEL });
    assert_eq!(p.velocity.x, 0);
    assert_eq!(p.velocity.y, PROJECTILE_SPEED_UNITS);
    let p = fire_projectile(&gs.player, Vector2 { x: 0, y: -UNITS_PER_PIXEL });
    assert_eq!(p.velocity.x, 0);
    assert_eq!(p.velocity.y, -PROJECTILE_SPEED_UNITS);
}

#[test]
fn firing_diagonally_never_exceeds_the_speed() {
    let gs = playing_state();
    let p = fire_projectile(&gs.player, Vector2 { x: UNITS_PER_PIXEL, y: UNITS_PER_PIXEL });
    assert!(p.velocity.x > 0 && p.velocity.x <= PROJECTILE_SPEED_UNITS);
    assert!(p.velocity.y > 0 && p.velocity.y <= PROJECTILE_SPEED_UNITS);
    // both components share the speed evenly on the diagonal:
    // 10 * 32767^2 / isqrt(2 * 32767^2), truncated
    assert_eq!(p.velocity.x, 231700);
    assert_eq!(p.velocity.y, 231700);
}

#[test]
fn player_is_clamped_to_the_screen() {
    let mut player = Spaceship { position: Vector2 { x: PLAYER_MAX_X_UNITS - 1, y: 5 } };
    update_player(&mut player, Vector2 { x: UNITS_PER_PIXEL, y: -UNITS_PER_PIXEL });
    assert_eq!(player.position.x, PLAYER_MAX_X_UNITS);
    assert_eq!(player.position.y, 0);

    let mut player = Spaceship { position: Vector2 { x: 0, y: PLAYER_MAX_Y_UNITS } };
    update_player(&mut player, Vector2 { x: -UNITS_PER_PIXEL, y: UNITS_PER_PIXEL });
    assert_eq!(player.position.x, 0);
    assert_eq!(player.position.y, PLAYER_MAX_Y_UNITS);
}

#[test]
fn player_moves_three_pixels_at_full_deflection() {
    let mut player = Spaceship { position: Vector2 { x: 100 * UNITS_PER_PIXEL, y: 100 * UNITS_PER_PIXEL } };
    update_player(&mut player, Vector2 { x: UNITS_PER_PIXEL, y: 0 });
    assert_eq!(player.position.x, 103 * UNITS_PER_PIXEL);
    assert_eq!(player.position.y, 100 * UNITS_PER_PIXEL);
}

#[test]
fn enemies_advance_one_pixel_and_cull_past_the_edge() {
    let mut enemies = vec![
        Some(Spaceship { position: Vector2 { x: 0, y: ENEMY_SPAWN_Y_UNITS } }),
        Some(Spaceship { position: Vector2 { x: SCREEN_WIDTH_UNITS, y: ENEMY_SPAWN_Y_UNITS } }),
        None,
    ];
    update_enemies(&mut enemies);
    let first = enemies[0].as_ref().expect("enemy on screen stays");
    assert_eq!(first.position.x, UNITS_PER_PIXEL);
    assert!(enemies[1].is_none(), "enemy past the right edge despawns");
    assert!(enemies[2].is_none());
}

#[test]
fn projectiles_despawn_the_frame_they_leave_the_screen() {
    let inside = galaxy_monkey::structs::Projectile {
        position: Vector2 { x: 100 * UNITS_PER_PIXEL, y: 100 * UNITS_PER_PIXEL },
        velocity: Vector2 { x: PROJECTILE_SPEED_UNITS, y: 0 },
    };
    let leaving_right = galaxy_monkey::structs::Projectile {
        position: Vector2 { x: SCREEN_WIDTH_UNITS - 1, y: 100 * UNITS_PER_PIXEL },
        velocity: Vector2 { x: PROJECTILE_SPEED_UNITS, y: 0 },
    };
    let leaving_top = galaxy_monkey::structs::Projectile {
        position: Vector2 { x: 100 * UNITS_PER_PIXEL, y: 0 },
        velocity: Vector2 { x: 0, y: -1 },
    };
    let leaving_bottom = galaxy_monkey::structs::Projectile {
        position: Vector2 { x: 100 * UNITS_PER_PIXEL, y: SCREEN_HEIGHT_UNITS },
        velocity: Vector2 { x: 0, y: 1 },
    };
    let mut projectiles = vec![Some(inside), Some(leaving_right), Some(leaving_top), Some(leaving_bottom)];
    update_projectiles(&mut projectiles);
    let kept = projectiles[0].as_ref().expect("projectile on screen stays");
    assert_eq!(kept.position.x, 110 * UNITS_PER_PIXEL);
    assert!(projectiles[1].is_none());
    assert!(projectiles[2].is_none());
    assert!(projectiles[3].is_none());
}

#[test]
fn round_starts_at_once_but_spawns_after_the_dwell() {
    let mut gs = playing_state();
    let mut rt = RoundTransition::new();
    assert_eq!(gs.round_number, 0);

    // empty enemies: the round number goes up now, nothing spawns yet
    round_machine_step(&mut gs, &mut rt, 1000);
    assert_eq!(gs.round_number, 1);
    assert!(rt.going_to_next_round);
    assert!(gs.enemies.iter().all(|slot| slot.is_none()));

    // exactly at the dwell interval: still nothing
    round_machine_step(&mut gs, &mut rt, 3500);
    assert_eq!(gs.round_number, 1);
    assert!(gs.enemies.iter().all(|slot| slot.is_none()));

    // one past the interval: exactly one enemy, at the spawn point
    round_machine_step(&mut gs, &mut rt, 3501);
    assert_eq!(gs.round_number, 1, "no second increment at spawn time");
    assert!(!rt.going_to_next_round);
    let occupied: Vec<&Spaceship> = gs.enemies.iter().flatten().collect();
    assert_eq!(occupied.len(), 1);
    assert_eq!(occupied[0].position.x, 0);
    assert_eq!(occupied[0].position.y, 30 * UNITS_PER_PIXEL);
}

#[test]
fn round_machine_rests_while_enemies_live() {
    let mut gs = playing_state();
    gs.enemies.push(Some(Spaceship { position: Vector2 { x: 0, y: ENEMY_SPAWN_Y_UNITS } }));
    let mut rt = RoundTransition::new();
    round_machine_step(&mut gs, &mut rt, 9999);
    assert_eq!(gs.round_number, 0);
    assert!(!rt.going_to_next_round);
}
