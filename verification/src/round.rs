//! The round-advance machine. While playing, an empty enemy collection
//! starts a timed transition: the round number goes up at once, the
//! announcement shows for a dwell interval, and the first frame past the
//! interval spawns exactly one enemy at the fixed spawn point.

use vstd::prelude::*;

verus! {

use crate::slots::{
    inserted, insert_into_option_vec, lemma_occupied_count_single, lemma_lowest_free_slot,
    lowest_free_slot, no_occupied_slot, occupied_count, slots_all_empty,
};
use crate::structs::{enemies_wf, enemy_slot_wf, GameState, Spaceship, Vector2};
use crate::{ENEMY_SPAWN_X_UNITS, ENEMY_SPAWN_Y_UNITS, ROUND_TRANSITION_INTERVAL_MS};

/// The round-advance sub-state: whether a transition is under way, and
/// the tick at which it began.
#[derive(Clone, Copy, Debug, PartialEq, Eq, Structural)]
pub struct RoundTransition {
    pub going_to_next_round: bool,
    pub round_transition_timer: u32,
}

impl RoundTransition {
    /// The initial sub-state: no transition pending.
    pub fn new() -> (rt: RoundTransition)
        ensures
            !rt.going_to_next_round,
            rt.round_transition_timer == 0,
    {
        RoundTransition { going_to_next_round: false, round_transition_timer: 0 }
    }
}

/// The enemy every round spawns: at the fixed spawn point, 30 pixels from
/// the top of the left edge.
pub open spec fn new_enemy() -> Spaceship {
    Spaceship { position: Vector2 { x: ENEMY_SPAWN_X_UNITS, y: ENEMY_SPAWN_Y_UNITS } }
}

/// One step of the round machine at tick `ticks`: the enemy collection,
/// round number and transition sub-state after the step.
///
/// An occupied enemy collection leaves everything alone. An empty one
/// starts a transition (anchor the timer, increment the round) unless one
/// is under way; once more than the dwell interval has elapsed since the
/// anchor, one enemy spawns and the transition ends.
pub open spec fn round_step(
    enemies: Seq<Option<Spaceship>>,
    round_number: u32,
    rt: RoundTransition,
    ticks: u32,
) -> (Seq<Option<Spaceship>>, u32, RoundTransition) {
    if !slots_all_empty(enemies) {
        (enemies, round_number, rt)
    } else {
        let started = if !rt.going_to_next_round {
            RoundTransition { going_to_next_round: true, round_transition_timer: ticks }
        } else {
            rt
        };
        let new_round = if !rt.going_to_next_round {
            (round_number + 1) as u32
        } else {
            round_number
        };
        if ticks - started.round_transition_timer > ROUND_TRANSITION_INTERVAL_MS {
            (
                inserted(enemies, new_enemy()),
                new_round,
                RoundTransition {
                    going_to_next_round: false,
                    round_transition_timer: started.round_transition_timer,
                },
            )
        } else {
            (enemies, new_round, started)
        }
    }
}

/// Run one step of the round machine on the game state.
pub fn round_machine_step(gs: &mut GameState, rt: &mut RoundTransition, ticks: u32)
    requires
        old(gs).wf(),
        old(gs).round_number < u32::MAX,
        old(rt).round_transition_timer <= ticks,
    ensures
        ({
            let (e, r, t) = round_step(old(gs).enemies@, old(gs).round_number, *old(rt), ticks);
            final(gs).enemies@ == e && final(gs).round_number == r && *final(rt) == t
        }),
        final(gs).player == old(gs).player,
        final(gs).state == old(gs).state,
        final(gs).left_joystick == old(gs).left_joystick,
        final(gs).right_joystick == old(gs).right_joystick,
        final(gs).friendly_projectiles@ == old(gs).friendly_projectiles@,
        final(gs).wf(),
        final(rt).round_transition_timer <= ticks,
        final(gs).round_number <= old(gs).round_number + 1,
{
    let enemies_is_empty = no_occupied_slot(&gs.enemies);
    if enemies_is_empty {
        if !rt.going_to_next_round {
            rt.round_transition_timer = ticks;
            gs.round_number = gs.round_number + 1;
            rt.going_to_next_round = true;
        }
        if ticks - rt.round_transition_timer > ROUND_TRANSITION_INTERVAL_MS {
            let spawned = Spaceship {
                position: Vector2 { x: ENEMY_SPAWN_X_UNITS, y: ENEMY_SPAWN_Y_UNITS },
            };
            let ghost before = gs.enemies@;
            insert_into_option_vec(&mut gs.enemies, spawned);
            rt.going_to_next_round = false;
            proof {
                lemma_lowest_free_slot(before);
                assert forall|i: int|
                    0 <= i < gs.enemies@.len() implies enemy_slot_wf(#[trigger] gs.enemies@[i]) by {
                    if i < before.len() && i != lowest_free_slot(before) {
                        assert(gs.enemies@[i] == before[i]);
                        assert(enemy_slot_wf(before[i]));
                    }
                }
            }
        }
    }
}

/// Law of the round transition: from an empty enemy collection with no
/// transition pending, the step at `t0` increments the round number once
/// and spawns nothing; a later step within the dwell interval still
/// spawns nothing and leaves the round number alone; the first step past
/// the interval spawns exactly one enemy, at the spawn point, without a
/// second increment.
pub proof fn lemma_round_transition(
    enemies: Seq<Option<Spaceship>>,
    round_number: u32,
    rt: RoundTransition,
    t0: u32,
    t1: u32,
    t2: u32,
)
    requires
        slots_all_empty(enemies),
        !rt.going_to_next_round,
        round_number < u32::MAX,
        t0 <= t1 <= t2,
        t1 - t0 <= ROUND_TRANSITION_INTERVAL_MS,
        t2 - t0 > ROUND_TRANSITION_INTERVAL_MS,
    ensures
        ({
            let (e1, r1, rt1) = round_step(enemies, round_number, rt, t0);
            let (e2, r2, rt2) = round_step(e1, r1, rt1, t1);
            let (e3, r3, rt3) = round_step(e2, r2, rt2, t2);
            &&& e1 == enemies  // no spawn at the start of the transition
            &&& r1 == round_number + 1  // the increment happens at the start
            &&& rt1 == (RoundTransition { going_to_next_round: true, round_transition_timer: t0 })
            &&& e2 == enemies  // within the dwell interval: still no spawn
            &&& r2 == r1  // and no second increment
            &&& rt2 == rt1
            &&& e3 == inserted(enemies, new_enemy())  // the first step past the interval spawns
            &&& occupied_count(e3) == 1  // exactly one enemy
            &&& e3[lowest_free_slot(enemies)] == Some(new_enemy())  // at the spawn point
            &&& r3 == r1
            &&& !rt3.going_to_next_round
        }),
{
    let (e1, r1, rt1) = round_step(enemies, round_number, rt, t0);
    let (e2, r2, rt2) = round_step(e1, r1, rt1, t1);
    let (e3, r3, rt3) = round_step(e2, r2, rt2, t2);
    lemma_lowest_free_slot(enemies);
    let j = lowest_free_slot(enemies);
    if enemies.len() == 0 {
        assert(e3 =~= enemies.push(Some(new_enemy())));
        lemma_occupied_count_single(e3, 0);
    } else {
        assert(enemies[0] is None);
        assert(j == 0);
        lemma_occupied_count_single(e3, 0);
    }
}

} // verus!
