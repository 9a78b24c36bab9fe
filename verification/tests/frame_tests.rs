//! Tests of whole frames: the start menu, the playing loop, quitting,
//! and the menu-to-first-enemy scenario.

use galaxy_monkey::frame::{frame_delay_millis, menu_frame, playing_frame, run_frame, MenuState};
use galaxy_monkey::input::{InputEvent, JoystickAxis, PadButton};
use galaxy_monkey::render::{centered_dest, units_to_pixels, DrawCmd, TextId};
use galaxy_monkey::round::RoundTransition;
use galaxy_monkey::structs::{GameState, State, Vector2};
use galaxy_monkey::{PROJECTILE_SPEED_UNITS, UNITS_PER_PIXEL};

fn fresh() -> (GameState, MenuState, RoundTransition) {
    (GameState::new(), MenuState::new(), RoundTransition::new())
}

#[test]
fn menu_renders_title_and_prompt() {
    let (mut gs, mut menu, mut rt) = fresh();
    let out = run_frame(&mut gs, &mut menu, &mut rt, 100, &Vec::new());
    assert!(!out.quit);
    assert_eq!(gs.state, State::StartMenu);
    assert_eq!(out.draw.len(), 3);
    assert!(matches!(out.draw[0], DrawCmd::Clear { .. }));
    assert_eq!(out.draw[1], DrawCmd::CenteredText { text: TextId::Title, y_offset: -200 });
    assert_eq!(out.draw[2], DrawCmd::CenteredText { text: TextId::PressStart, y_offset: 150 });
}

#[test]
fn prompt_stays_lit_at_exactly_the_flash_interval() {
    let (mut gs, mut menu, _) = fresh();
    let out = menu_frame(&mut gs, &mut menu, 500, &Vec::new());
    assert!(menu.displaying, "a full interval must elapse strictly");
    assert_eq!(menu.press_start_timer, 0);
    assert_eq!(out.draw.len(), 3);
}

#[test]
fn menu_prompt_flashes_on_its_own_timer() {
    let (mut gs, mut menu, _) = fresh();
    // past the flash interval: the prompt goes dark and the timer re-anchors
    let out = menu_frame(&mut gs, &mut menu, 600, &Vec::new());
    assert!(!menu.displaying);
    assert_eq!(menu.press_start_timer, 600);
    assert_eq!(out.draw.len(), 2, "no prompt while dark");
    // within the interval: no toggle
    let out = menu_frame(&mut gs, &mut menu, 900, &Vec::new());
    assert!(!menu.displaying);
    assert_eq!(out.draw.len(), 2);
    // past it again: shown once more
    let out = menu_frame(&mut gs, &mut menu, 1200, &Vec::new());
    assert!(menu.displaying);
    assert_eq!(out.draw.len(), 3);
}

#[test]
fn mouse_wheel_moves_the_prompt() {
    let (mut gs, mut menu, _) = fresh();
    let events = vec![InputEvent::MouseWheel { y: 2 }];
    menu_frame(&mut gs, &mut menu, 10, &events);
    assert_eq!(menu.press_start_position, 150 - 60);
    let events = vec![InputEvent::MouseWheel { y: -1 }];
    menu_frame(&mut gs, &mut menu, 20, &events);
    assert_eq!(menu.press_start_position, 150 - 60 + 30);
}

#[test]
fn confirm_enters_playing() {
    let (mut gs, mut menu, mut rt) = fresh();
    let events = vec![InputEvent::KeyDown];
    let out = run_frame(&mut gs, &mut menu, &mut rt, 100, &events);
    assert!(!out.quit);
    assert_eq!(gs.state, State::Playing);

    let (mut gs, mut menu, mut rt) = fresh();
    let events = vec![InputEvent::ButtonDown { button: PadButton::Start }];
    run_frame(&mut gs, &mut menu, &mut rt, 100, &events);
    assert_eq!(gs.state, State::Playing);
}

#[test]
fn a_quit_event_stops_the_frame_at_once() {
    let (mut gs, mut menu, mut rt) = fresh();
    let events = vec![
        InputEvent::DeviceAdded { which: 0 },
        InputEvent::Quit,
        InputEvent::KeyDown,
    ];
    let out = run_frame(&mut gs, &mut menu, &mut rt, 100, &events);
    assert!(out.quit);
    assert_eq!(out.controllers_to_open, vec![0]);
    assert!(out.draw.is_empty(), "a quitting frame draws nothing");
    assert_eq!(gs.state, State::StartMenu, "events after the quit go unprocessed");
}

#[test]
fn back_button_quits_while_playing() {
    let (mut gs, mut menu, mut rt) = fresh();
    gs.state = State::Playing;
    let events = vec![InputEvent::ButtonDown { button: PadButton::Back }];
    let out = run_frame(&mut gs, &mut menu, &mut rt, 100, &events);
    assert!(out.quit);
    assert!(out.draw.is_empty());
}

#[test]
fn scenario_menu_to_first_enemy() {
    // Start in the menu: title and prompt render.
    let (mut gs, mut menu, mut rt) = fresh();
    let out = run_frame(&mut gs, &mut menu, &mut rt, 50, &Vec::new());
    assert!(out
        .draw
        .contains(&DrawCmd::CenteredText { text: TextId::Title, y_offset: -200 }));

    // Confirm: the state becomes Playing.
    let events = vec![InputEvent::KeyDown];
    run_frame(&mut gs, &mut menu, &mut rt, 100, &events);
    assert_eq!(gs.state, State::Playing);

    // First playing frame: enemies are empty, so the round number becomes 1
    // immediately and the announcement is drawn; the anchor is this tick.
    let out = run_frame(&mut gs, &mut menu, &mut rt, 200, &Vec::new());
    assert_eq!(gs.round_number, 1);
    assert!(rt.going_to_next_round);
    assert_eq!(rt.round_transition_timer, 200);
    assert!(out.draw.contains(&DrawCmd::CenteredText {
        text: TextId::RoundNumber { number: 1 },
        y_offset: 0,
    }));
    assert!(gs.enemies.iter().all(|slot| slot.is_none()));

    // At the dwell interval's end the enemy is still to come; the first
    // frame past it spawns exactly one, at (0, 30) pixels.
    run_frame(&mut gs, &mut menu, &mut rt, 2700, &Vec::new());
    assert!(gs.enemies.iter().all(|slot| slot.is_none()));
    run_frame(&mut gs, &mut menu, &mut rt, 2701, &Vec::new());
    let occupied: Vec<_> = gs.enemies.iter().flatten().collect();
    assert_eq!(occupied.len(), 1);
    // spawned at (0, 30) and carried one pixel right by the same frame's
    // motion update
    assert_eq!(occupied[0].position.x, UNITS_PER_PIXEL);
    assert_eq!(occupied[0].position.y, 30 * UNITS_PER_PIXEL);
    assert_eq!(gs.round_number, 1, "the increment came at the transition's start");
    assert!(!rt.going_to_next_round);
}

#[test]
fn deflecting_the_right_stick_fires_one_projectile() {
    let (mut gs, _, mut rt) = fresh();
    gs.state = State::Playing;
    gs.enemies.push(Some(galaxy_monkey::structs::Spaceship {
        position: Vector2 { x: 0, y: 30 * UNITS_PER_PIXEL },
    }));
    let events = vec![InputEvent::AxisMotion { axis: JoystickAxis::RightX, value: i16::MAX }];
    playing_frame(&mut gs, &mut rt, 100, &events);
    assert_eq!(gs.right_joystick.x, UNITS_PER_PIXEL);
    let fired: Vec<_> = gs.friendly_projectiles.iter().flatten().collect();
    assert_eq!(fired.len(), 1);
    assert_eq!(fired[0].velocity.x, PROJECTILE_SPEED_UNITS);
    assert_eq!(fired[0].velocity.y, 0);

    // and the opposite direction
    let (mut gs2, _, mut rt2) = fresh();
    gs2.state = State::Playing;
    gs2.enemies.push(Some(galaxy_monkey::structs::Spaceship {
        position: Vector2 { x: 0, y: 30 * UNITS_PER_PIXEL },
    }));
    let events = vec![InputEvent::AxisMotion { axis: JoystickAxis::RightX, value: -32767 }];
    playing_frame(&mut gs2, &mut rt2, 100, &events);
    let fired: Vec<_> = gs2.friendly_projectiles.iter().flatten().collect();
    assert_eq!(fired.len(), 1);
    assert_eq!(fired[0].velocity.x, -PROJECTILE_SPEED_UNITS);
    assert_eq!(fired[0].velocity.y, 0);
}

#[test]
fn a_full_negative_reading_saturates_to_full_deflection() {
    let (mut gs, _, mut rt) = fresh();
    gs.state = State::Playing;
    gs.enemies.push(Some(galaxy_monkey::structs::Spaceship {
        position: Vector2 { x: 0, y: 30 * UNITS_PER_PIXEL },
    }));
    let start_x = gs.player.position.x;
    let events = vec![InputEvent::AxisMotion { axis: JoystickAxis::LeftX, value: i16::MIN }];
    playing_frame(&mut gs, &mut rt, 100, &events);
    assert_eq!(gs.left_joystick.x, -UNITS_PER_PIXEL, "i16::MIN reads as exactly -1.0");
    // at full deflection the player moves exactly the player speed
    assert_eq!(gs.player.position.x, start_x - 3 * UNITS_PER_PIXEL);
}

#[test]
fn small_axis_readings_read_as_neutral_and_do_not_fire() {
    let (mut gs, _, mut rt) = fresh();
    gs.state = State::Playing;
    gs.enemies.push(Some(galaxy_monkey::structs::Spaceship {
        position: Vector2 { x: 0, y: 30 * UNITS_PER_PIXEL },
    }));
    // 6553 / 32767 < 0.20: filtered to exactly neutral
    let events = vec![InputEvent::AxisMotion { axis: JoystickAxis::RightX, value: 6553 }];
    playing_frame(&mut gs, &mut rt, 100, &events);
    assert_eq!(gs.right_joystick.x, 0);
    assert_eq!(gs.right_joystick.y, 0);
    assert!(gs.friendly_projectiles.iter().all(|slot| slot.is_none()));
}

#[test]
fn playing_frame_draws_state_in_order() {
    let (mut gs, _, mut rt) = fresh();
    gs.state = State::Playing;
    gs.enemies.push(Some(galaxy_monkey::structs::Spaceship {
        position: Vector2 { x: 40 * UNITS_PER_PIXEL, y: 30 * UNITS_PER_PIXEL },
    }));
    let out = playing_frame(&mut gs, &mut rt, 100, &Vec::new());
    assert!(matches!(out.draw[0], DrawCmd::Clear { .. }));
    // the player's square at its pixel position
    match out.draw[1] {
        DrawCmd::FillRect { x, y, width, height, .. } => {
            assert_eq!(x, 590);
            assert_eq!(y, 310);
            assert_eq!(width, 50);
            assert_eq!(height, 50);
        },
        _ => panic!("expected the player's square"),
    }
    // the enemy moved one pixel right before rendering
    match out.draw[2] {
        DrawCmd::FillRect { x, y, .. } => {
            assert_eq!(x, 41);
            assert_eq!(y, 30);
        },
        _ => panic!("expected the enemy's square"),
    }
}

#[test]
fn pixels_and_centering_math() {
    assert_eq!(units_to_pixels(0), 0);
    assert_eq!(units_to_pixels(100 * UNITS_PER_PIXEL), 100);
    assert_eq!(units_to_pixels(100 * UNITS_PER_PIXEL + 32766), 100);
    let (x, y) = centered_dest(100, 50, 0);
    assert_eq!(x, 590);
    assert_eq!(y, 335);
    let (_, y) = centered_dest(100, 50, 150);
    assert_eq!(y, 485);
}

#[test]
fn frame_delay_fills_the_budget() {
    assert_eq!(frame_delay_millis(0), 8);
    assert_eq!(frame_delay_millis(3), 5);
    assert_eq!(frame_delay_millis(8), 0);
    assert_eq!(frame_delay_millis(1000), 0);
}
