//! One frame of the game, as a pure decision function: the front end
//! polls events, reads the millisecond tick counter, calls `run_frame`,
//! and then executes what comes back — draw commands, controller-open
//! requests, and the quit flag. A frame that meets a quit event stops at
//! it: later events go unprocessed and nothing is drawn.

use vstd::prelude::*;

verus! {

use crate::input::{
    check_deadzone, device_add_requests, first_quit_index, has_quit, is_confirm_event,
    is_quit_event, lemma_first_quit_index_at, normalize_axis, sticks_after_events, InputEvent,
    JoystickAxis, PadButton,
};
use crate::render::{
    menu_draw_cmds, playing_draw_cmds, render_menu, render_playing, DrawCmd,
};
use crate::round::{round_machine_step, round_step, RoundTransition};
use crate::sim::{
    fire_projectile, fired_projectile, player_moved, stepped_enemies, stepped_projectiles,
    update_enemies, update_player, update_projectiles,
};
use crate::slots::{insert_into_option_vec, inserted, lemma_lowest_free_slot, lowest_free_slot};
use crate::structs::{projectile_slot_wf, GameState, State};
use crate::util::{clamp, sat_i32};
use crate::{FRAME_BUDGET_MS, INITIAL_PRESS_START_OFFSET, MOUSE_WHEEL_STEP,
    PRESS_START_FLASH_INTERVAL_MS};

/// The start menu's own state: the flashing prompt's phase and timer
/// anchor, and the prompt's vertical position (the mouse wheel moves it).
#[derive(Clone, Copy, Debug, PartialEq, Eq, Structural)]
pub struct MenuState {
    pub displaying: bool,
    pub press_start_timer: u32,
    pub press_start_position: i32,
}

impl MenuState {
    /// The initial menu state: prompt shown, timer at the epoch, prompt
    /// at its initial offset.
    pub fn new() -> (menu: MenuState)
        ensures
            menu.displaying,
            menu.press_start_timer == 0,
            menu.press_start_position == INITIAL_PRESS_START_OFFSET,
    {
        MenuState {
            displaying: true,
            press_start_timer: 0,
            press_start_position: INITIAL_PRESS_START_OFFSET,
        }
    }
}

/// What one frame hands back to the front end.
pub struct FrameOutput {
    pub quit: bool,
    pub controllers_to_open: Vec<u32>,
    pub draw: Vec<DrawCmd>,
}

/// The game-state tag and prompt position after a sequence of start-menu
/// events, read in order: a confirm event switches to `Playing`, and each
/// mouse-wheel event moves the prompt (saturating at the range of `i32`).
pub open spec fn menu_fold(
    state: State,
    press_start_position: i32,
    events: Seq<InputEvent>,
) -> (State, i32)
    decreases events.len(),
{
    if events.len() == 0 {
        (state, press_start_position)
    } else {
        let prior = menu_fold(state, press_start_position, events.drop_last());
        let s = if is_confirm_event(events.last()) {
            State::Playing
        } else {
            prior.0
        };
        let p = match events.last() {
            InputEvent::MouseWheel { y } => sat_i32(
                prior.1 - (y as int) * MOUSE_WHEEL_STEP,
            ) as i32,
            _ => prior.1,
        };
        (s, p)
    }
}

/// Everything a start-menu frame does, as a relation between the states
/// before and after it. The processed events are those before the first
/// quit event; when the frame completes (no quit), the prompt's flash
/// toggles on its own timer and the menu is drawn.
pub open spec fn menu_frame_rel(
    gs0: GameState,
    menu0: MenuState,
    ticks: u32,
    events: Seq<InputEvent>,
    gs1: GameState,
    menu1: MenuState,
    out: FrameOutput,
) -> bool {
    let processed = events.take(first_quit_index(events));
    let folded = menu_fold(gs0.state, menu0.press_start_position, processed);
    &&& out.quit == has_quit(events)
    &&& out.controllers_to_open@ == device_add_requests(processed)
    &&& gs1.state == folded.0
    &&& menu1.press_start_position == folded.1
    &&& gs1.player == gs0.player
    &&& gs1.left_joystick == gs0.left_joystick
    &&& gs1.right_joystick == gs0.right_joystick
    &&& gs1.enemies@ == gs0.enemies@
    &&& gs1.friendly_projectiles@ == gs0.friendly_projectiles@
    &&& gs1.round_number == gs0.round_number
    &&& gs1.wf()
    &&& menu1.press_start_timer <= ticks
    &&& (has_quit(events) ==> {
        &&& menu1.displaying == menu0.displaying
        &&& menu1.press_start_timer == menu0.press_start_timer
        &&& out.draw@ == Seq::<DrawCmd>::empty()
    })
    &&& (!has_quit(events) ==> {
        let flip = ticks - menu0.press_start_timer > PRESS_START_FLASH_INTERVAL_MS;
        &&& menu1.displaying == (if flip {
            !menu0.displaying
        } else {
            menu0.displaying
        })
        &&& menu1.press_start_timer == (if flip {
            ticks
        } else {
            menu0.press_start_timer
        })
        &&& out.draw@ == menu_draw_cmds(menu1.displaying, menu1.press_start_position)
    })
}

/// Run one start-menu frame: process events up to a quit, then toggle the
/// prompt's flash and emit the menu's draw commands.
pub fn menu_frame(
    gs: &mut GameState,
    menu: &mut MenuState,
    ticks: u32,
    events: &Vec<InputEvent>,
) -> (out: FrameOutput)
    requires
        old(gs).wf(),
        old(gs).state == State::StartMenu,
        old(menu).press_start_timer <= ticks,
    ensures
        menu_frame_rel(*old(gs), *old(menu), ticks, events@, *final(gs), *final(menu), out),
{
    let mut opens: Vec<u32> = Vec::new();
    let n = events.len();
    let mut i: usize = 0;
    while i < n
        invariant
            i <= n,
            events@.len() == n,
            gs.player == old(gs).player,
            gs.left_joystick == old(gs).left_joystick,
            gs.right_joystick == old(gs).right_joystick,
            gs.enemies@ == old(gs).enemies@,
            gs.friendly_projectiles@ == old(gs).friendly_projectiles@,
            gs.round_number == old(gs).round_number,
            gs.wf(),
            menu.displaying == old(menu).displaying,
            menu.press_start_timer == old(menu).press_start_timer,
            old(menu).press_start_timer <= ticks,
            forall|k: int| 0 <= k < i ==> !is_quit_event(#[trigger] events@[k]),
            ({
                let folded = menu_fold(
                    old(gs).state,
                    old(menu).press_start_position,
                    events@.take(i as int),
                );
                gs.state == folded.0 && menu.press_start_position == folded.1
            }),
            opens@ == device_add_requests(events@.take(i as int)),
        decreases n - i,
    {
        proof {
            assert(events@.take(i + 1).drop_last() =~= events@.take(i as int));
            assert(events@.take(i + 1).last() == events@[i as int]);
        }
        let ev = events[i];
        match ev {
            InputEvent::Quit => {
                proof {
                    lemma_first_quit_index_at(events@, i as int);
                }
                let draw: Vec<DrawCmd> = Vec::new();
                proof {
                    assert(draw@ =~= Seq::<DrawCmd>::empty());
                }
                return FrameOutput { quit: true, controllers_to_open: opens, draw };
            },
            InputEvent::ButtonDown { button } => {
                match button {
                    PadButton::Back => {
                        proof {
                            lemma_first_quit_index_at(events@, i as int);
                        }
                        let draw: Vec<DrawCmd> = Vec::new();
                        proof {
                            assert(draw@ =~= Seq::<DrawCmd>::empty());
                        }
                        return FrameOutput { quit: true, controllers_to_open: opens, draw };
                    },
                    PadButton::Start => {
                        gs.state = State::Playing;
                    },
                    PadButton::Other => {},
                }
            },
            InputEvent::KeyDown => {
                gs.state = State::Playing;
            },
            InputEvent::DeviceAdded { which } => {
                opens.push(which);
            },
            InputEvent::MouseWheel { y } => {
                let moved = (menu.press_start_position as i64) - (y as i64) * MOUSE_WHEEL_STEP;
                menu.press_start_position = clamp(moved, i32::MIN as i64, i32::MAX as i64) as i32;
            },
            InputEvent::AxisMotion { .. } => {},
        }
        i += 1;
    }
    proof {
        lemma_first_quit_index_at(events@, n as int);
        assert(events@.take(n as int) =~= events@);
    }
    if ticks - menu.press_start_timer > PRESS_START_FLASH_INTERVAL_MS {
        menu.displaying = !menu.displaying;
        menu.press_start_timer = ticks;
    }
    let draw = render_menu(menu.displaying, menu.press_start_position);
    FrameOutput { quit: false, controllers_to_open: opens, draw }
}

/// Everything a playing frame does, as a relation between the states
/// before and after it: events move the sticks, the round machine runs,
/// a deflected right stick fires one projectile, the player moves and is
/// clamped, entities move and off-screen ones despawn, and the final
/// state is drawn. A frame that meets a quit event stops at it.
pub open spec fn playing_frame_rel(
    gs0: GameState,
    rt0: RoundTransition,
    ticks: u32,
    events: Seq<InputEvent>,
    gs1: GameState,
    rt1: RoundTransition,
    out: FrameOutput,
) -> bool {
    let processed = events.take(first_quit_index(events));
    let sticks = sticks_after_events(gs0.left_joystick, gs0.right_joystick, processed);
    &&& out.quit == has_quit(events)
    &&& out.controllers_to_open@ == device_add_requests(processed)
    &&& gs1.left_joystick == sticks.0
    &&& gs1.right_joystick == sticks.1
    &&& gs1.state == gs0.state
    &&& gs1.wf()
    &&& gs1.player.player_wf()
    &&& rt1.round_transition_timer <= ticks
    &&& gs1.round_number <= gs0.round_number + 1
    &&& (has_quit(events) ==> {
        &&& gs1.player == gs0.player
        &&& gs1.enemies@ == gs0.enemies@
        &&& gs1.friendly_projectiles@ == gs0.friendly_projectiles@
        &&& gs1.round_number == gs0.round_number
        &&& rt1 == rt0
        &&& out.draw@ == Seq::<DrawCmd>::empty()
    })
    &&& (!has_quit(events) ==> {
        let stepped = round_step(gs0.enemies@, gs0.round_number, rt0, ticks);
        let fired = sticks.1.x != 0 || sticks.1.y != 0;
        let projectiles_after_fire = if fired {
            inserted(gs0.friendly_projectiles@, fired_projectile(gs0.player, sticks.1))
        } else {
            gs0.friendly_projectiles@
        };
        &&& gs1.player.position == player_moved(gs0.player.position, sticks.0)
        &&& gs1.round_number == stepped.1
        &&& rt1 == stepped.2
        &&& gs1.enemies@ == stepped_enemies(stepped.0)
        &&& gs1.friendly_projectiles@ == stepped_projectiles(projectiles_after_fire)
        &&& out.draw@ == playing_draw_cmds(gs1, rt1)
    })
}

/// Run one playing frame: events, round machine, firing, motion with
/// clamping and culling, then the draw pass.
pub fn playing_frame(
    gs: &mut GameState,
    rt: &mut RoundTransition,
    ticks: u32,
    events: &Vec<InputEvent>,
) -> (out: FrameOutput)
    requires
        old(gs).wf(),
        old(gs).round_number < u32::MAX,
        old(rt).round_transition_timer <= ticks,
    ensures
        playing_frame_rel(*old(gs), *old(rt), ticks, events@, *final(gs), *final(rt), out),
{
    let mut opens: Vec<u32> = Vec::new();
    let n = events.len();
    let mut i: usize = 0;
    while i < n
        invariant
            i <= n,
            events@.len() == n,
            gs.player == old(gs).player,
            gs.state == old(gs).state,
            gs.enemies@ == old(gs).enemies@,
            gs.friendly_projectiles@ == old(gs).friendly_projectiles@,
            gs.round_number == old(gs).round_number,
            gs.wf(),
            *rt == *old(rt),
            old(rt).round_transition_timer <= ticks,
            old(gs).round_number < u32::MAX,
            forall|k: int| 0 <= k < i ==> !is_quit_event(#[trigger] events@[k]),
            ({
                let sticks = sticks_after_events(
                    old(gs).left_joystick,
                    old(gs).right_joystick,
                    events@.take(i as int),
                );
                gs.left_joystick == sticks.0 && gs.right_joystick == sticks.1
            }),
            opens@ == device_add_requests(events@.take(i as int)),
        decreases n - i,
    {
        proof {
            assert(events@.take(i + 1).drop_last() =~= events@.take(i as int));
            assert(events@.take(i + 1).last() == events@[i as int]);
        }
        let ev = events[i];
        match ev {
            InputEvent::Quit => {
                proof {
                    lemma_first_quit_index_at(events@, i as int);
                }
                let draw: Vec<DrawCmd> = Vec::new();
                proof {
                    assert(draw@ =~= Seq::<DrawCmd>::empty());
                }
                return FrameOutput { quit: true, controllers_to_open: opens, draw };
            },
            InputEvent::ButtonDown { button } => {
                match button {
                    PadButton::Back => {
                        proof {
                            lemma_first_quit_index_at(events@, i as int);
                        }
                        let draw: Vec<DrawCmd> = Vec::new();
                        proof {
                            assert(draw@ =~= Seq::<DrawCmd>::empty());
                        }
                        return FrameOutput { quit: true, controllers_to_open: opens, draw };
                    },
                    _ => {},
                }
            },
            InputEvent::DeviceAdded { which } => {
                opens.push(which);
            },
            InputEvent::AxisMotion { axis, value } => {
                let stored = normalize_axis(value);
                match axis {
                    JoystickAxis::LeftX => {
                        gs.left_joystick.x = stored;
                    },
                    JoystickAxis::LeftY => {
                        gs.left_joystick.y = stored;
                    },
                    JoystickAxis::RightX => {
                        gs.right_joystick.x = stored;
                    },
                    JoystickAxis::RightY => {
                        gs.right_joystick.y = stored;
                    },
                }
                gs.left_joystick = check_deadzone(gs.left_joystick);
                gs.right_joystick = check_deadzone(gs.right_joystick);
            },
            InputEvent::KeyDown => {},
            InputEvent::MouseWheel { .. } => {},
        }
        i += 1;
    }
    proof {
        lemma_first_quit_index_at(events@, n as int);
        assert(events@.take(n as int) =~= events@);
    }
    round_machine_step(gs, rt, ticks);
    if gs.right_joystick.x != 0 || gs.right_joystick.y != 0 {
        let p = fire_projectile(&gs.player, gs.right_joystick);
        let ghost before = gs.friendly_projectiles@;
        insert_into_option_vec(&mut gs.friendly_projectiles, p);
        proof {
            lemma_lowest_free_slot(before);
            assert forall|k: int|
                0 <= k < gs.friendly_projectiles@.len() implies projectile_slot_wf(
                #[trigger] gs.friendly_projectiles@[k]) by {
                if k < before.len() && k != lowest_free_slot(before) {
                    assert(gs.friendly_projectiles@[k] == before[k]);
                    assert(projectile_slot_wf(before[k]));
                }
            }
        }
    }
    update_player(&mut gs.player, gs.left_joystick);
    update_enemies(&mut gs.enemies);
    update_projectiles(&mut gs.friendly_projectiles);
    let draw = render_playing(gs, rt);
    FrameOutput { quit: false, controllers_to_open: opens, draw }
}

/// Run one frame, whichever screen the game is on. The front end hands in
/// the frame's events and the tick counter, and carries out the returned
/// output: it opens the requested controllers, executes the draw list,
/// and stops the loop when `quit` is set.
pub fn run_frame(
    gs: &mut GameState,
    menu: &mut MenuState,
    rt: &mut RoundTransition,
    ticks: u32,
    events: &Vec<InputEvent>,
) -> (out: FrameOutput)
    requires
        old(gs).wf(),
        old(gs).round_number < u32::MAX,
        old(rt).round_transition_timer <= ticks,
        old(menu).press_start_timer <= ticks,
    ensures
        final(gs).wf(),
        final(rt).round_transition_timer <= ticks,
        final(menu).press_start_timer <= ticks,
        out.quit == has_quit(events@),
        old(gs).state == State::StartMenu ==> menu_frame_rel(
            *old(gs),
            *old(menu),
            ticks,
            events@,
            *final(gs),
            *final(menu),
            out,
        ) && *final(rt) == *old(rt),
        old(gs).state == State::Playing ==> playing_frame_rel(
            *old(gs),
            *old(rt),
            ticks,
            events@,
            *final(gs),
            *final(rt),
            out,
        ) && *final(menu) == *old(menu),
{
    match gs.state {
        State::StartMenu => menu_frame(gs, menu, ticks, events),
        State::Playing => playing_frame(gs, rt, ticks, events),
    }
}

/// How long the front end sleeps at the end of a frame: the rest of the
/// frame budget, or nothing when the frame already took at least as long.
pub fn frame_delay_millis(time_delta: u32) -> (delay: u32)
    ensures
        delay == if time_delta < FRAME_BUDGET_MS {
            (FRAME_BUDGET_MS - time_delta) as u32
        } else {
            0u32
        },
{
    if time_delta < FRAME_BUDGET_MS {
        FRAME_BUDGET_MS - time_delta
    } else {
        0
    }
}

} // verus!
