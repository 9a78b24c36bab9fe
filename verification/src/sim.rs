//! The per-frame simulation: projectile firing, player motion with
//! clamping, and entity motion with off-screen culling.

use vstd::prelude::*;

verus! {

use crate::slots::delete_marked_entities;
use crate::structs::{
    enemies_wf, enemy_slot_wf, projectile_slot_wf, projectiles_wf, stick_wf, Projectile,
    Spaceship, Vector2,
};
use crate::util::{
    clamp, clamped, isqrt, lemma_sqrt_floor_unique, sqrt_floor,
};
use crate::{
    ENEMY_SPEED_UNITS, PLAYER_MAX_X_UNITS, PLAYER_MAX_Y_UNITS, PLAYER_SPEED, PLAYER_WIDTH,
    PROJECTILE_SPEED_UNITS, SCREEN_HEIGHT_UNITS, SCREEN_WIDTH_UNITS, UNITS_PER_PIXEL,
};
use vstd::arithmetic::div_mod::{
    lemma_div_by_multiple, lemma_div_of0, lemma_div_pos_is_pos, lemma_multiply_divide_le,
};

/// Absolute value.
pub open spec fn abs_int(v: int) -> int {
    if v < 0 {
        -v
    } else {
        v
    }
}

/// Squared magnitude of a stick reading.
pub open spec fn stick_magnitude_sq(stick: Vector2<i64>) -> nat {
    (stick.x * stick.x + stick.y * stick.y) as nat
}

/// One velocity component of a projectile fired along the stick vector
/// whose magnitude is `m`: the projectile speed, scaled by this
/// component's share of the stick's deflection, with the component's sign.
pub open spec fn vel_component(c: int, m: int) -> int {
    let mag = (PROJECTILE_SPEED_UNITS * abs_int(c)) / m;
    if c < 0 {
        -mag
    } else {
        mag
    }
}

/// The projectile fired from the player's ship along the right stick:
/// it starts half a player width into the player's square, and moves at
/// the fixed projectile speed in the stick's direction.
pub open spec fn fired_projectile(player: Spaceship, right: Vector2<i64>) -> Projectile {
    let m = sqrt_floor(stick_magnitude_sq(right)) as int;
    Projectile {
        position: Vector2 {
            x: (player.position.x + (PLAYER_WIDTH / 2) * UNITS_PER_PIXEL) as i64,
            y: (player.position.y + (PLAYER_WIDTH / 2) * UNITS_PER_PIXEL) as i64,
        },
        velocity: Vector2 {
            x: vel_component(right.x as int, m) as i64,
            y: vel_component(right.y as int, m) as i64,
        },
    }
}

/// Fire a projectile from the player's ship along the right stick.
///
/// A neutral stick never fires (the caller tests that), so the stick's
/// magnitude here is at least one unit and the direction is defined.
pub fn fire_projectile(player: &Spaceship, right_joystick: Vector2<i64>) -> (p: Projectile)
    requires
        player.player_wf(),
        stick_wf(right_joystick),
        right_joystick.x != 0 || right_joystick.y != 0,
    ensures
        p == fired_projectile(*player, right_joystick),
        p.wf(),
{
    let half: i64 = (PLAYER_WIDTH / 2) * UNITS_PER_PIXEL;
    let xpos = player.position.x + half;
    let ypos = player.position.y + half;

    let rx = right_joystick.x;
    let ry = right_joystick.y;
    let ux: u64 = if rx < 0 {
        (-rx) as u64
    } else {
        rx as u64
    };
    let uy: u64 = if ry < 0 {
        (-ry) as u64
    } else {
        ry as u64
    };
    proof {
        assert(ux * ux <= 0x7fff * 0x7fff && (rx as int) * (rx as int) == (ux as int) * (
        ux as int)) by (nonlinear_arith)
            requires
                ux <= 0x7fff,
                ux as int == rx as int || ux as int == -(rx as int),
        ;
        assert(uy * uy <= 0x7fff * 0x7fff && (ry as int) * (ry as int) == (uy as int) * (
        uy as int)) by (nonlinear_arith)
            requires
                uy <= 0x7fff,
                uy as int == ry as int || uy as int == -(ry as int),
        ;
        assert(ux >= 1 ==> ux * ux >= 1) by (nonlinear_arith);
        assert(uy >= 1 ==> uy * uy >= 1) by (nonlinear_arith);
    }
    let n = ux * ux + uy * uy;
    proof {
        if rx != 0 {
            assert(ux >= 1);
        } else {
            assert(uy >= 1);
        }
        assert(n >= 1);
    }
    let m = isqrt(n);
    proof {
        assert(m >= 1) by (nonlinear_arith)
            requires
                n >= 1,
                (m as int) * (m as int) <= n as int,
                (n as int) < ((m as int) + 1) * ((m as int) + 1),
        ;
        assert(stick_magnitude_sq(right_joystick) == n as nat);
        // each component's share is at most the whole magnitude
        assert((ux as int) * (ux as int) <= n);
        assert((uy as int) * (uy as int) <= n);
        assert((ux as nat) * (ux as nat) < ((ux + 1) as nat) * ((ux + 1) as nat))
            by (nonlinear_arith);
        assert((uy as nat) * (uy as nat) < ((uy + 1) as nat) * ((uy + 1) as nat))
            by (nonlinear_arith);
        lemma_sqrt_floor_unique((ux as nat) * (ux as nat), ux as nat);
        lemma_sqrt_floor_unique((uy as nat) * (uy as nat), uy as nat);
        crate::util::lemma_sqrt_floor_monotonic((ux as nat) * (ux as nat), n as nat);
        crate::util::lemma_sqrt_floor_monotonic((uy as nat) * (uy as nat), n as nat);
        assert(ux <= m && uy <= m);
        assert(PROJECTILE_SPEED_UNITS * (ux as int) <= (m as int) * PROJECTILE_SPEED_UNITS)
            by (nonlinear_arith)
            requires
                ux <= m,
                PROJECTILE_SPEED_UNITS >= 0,
        ;
        assert(PROJECTILE_SPEED_UNITS * (uy as int) <= (m as int) * PROJECTILE_SPEED_UNITS)
            by (nonlinear_arith)
            requires
                uy <= m,
                PROJECTILE_SPEED_UNITS >= 0,
        ;
        assert((PROJECTILE_SPEED_UNITS as int) * (ux as int) <= 327670 * 0x7fff)
            by (nonlinear_arith)
            requires
                ux <= 0x7fff,
                PROJECTILE_SPEED_UNITS == 327670,
        ;
        assert((PROJECTILE_SPEED_UNITS as int) * (uy as int) <= 327670 * 0x7fff)
            by (nonlinear_arith)
            requires
                uy <= 0x7fff,
                PROJECTILE_SPEED_UNITS == 327670,
        ;
        lemma_multiply_divide_le(
            PROJECTILE_SPEED_UNITS * (ux as int),
            m as int,
            PROJECTILE_SPEED_UNITS as int,
        );
        lemma_multiply_divide_le(
            PROJECTILE_SPEED_UNITS * (uy as int),
            m as int,
            PROJECTILE_SPEED_UNITS as int,
        );
        lemma_div_pos_is_pos(PROJECTILE_SPEED_UNITS * (ux as int), m as int);
        lemma_div_pos_is_pos(PROJECTILE_SPEED_UNITS * (uy as int), m as int);
    }
    let mag_x = (PROJECTILE_SPEED_UNITS as u64) * ux / m;
    let mag_y = (PROJECTILE_SPEED_UNITS as u64) * uy / m;
    let xvel = if rx < 0 {
        -(mag_x as i64)
    } else {
        mag_x as i64
    };
    let yvel = if ry < 0 {
        -(mag_y as i64)
    } else {
        mag_y as i64
    };
    Projectile {
        position: Vector2 { x: xpos, y: ypos },
        velocity: Vector2 { x: xvel, y: yvel },
    }
}

/// Law of axis-aligned firing: a stick held straight along an axis fires
/// at the full projectile speed along that axis, in the stick's
/// direction.
pub proof fn lemma_fire_axis_aligned(player: Spaceship, right: Vector2<i64>)
    requires
        stick_wf(right),
        right.x == 0 || right.y == 0,
        right.x != 0 || right.y != 0,
    ensures
        right.x > 0 && right.y == 0 ==> fired_projectile(player, right).velocity == (Vector2 {
            x: PROJECTILE_SPEED_UNITS,
            y: 0i64,
        }),
        right.x < 0 && right.y == 0 ==> fired_projectile(player, right).velocity == (Vector2 {
            x: (-PROJECTILE_SPEED_UNITS) as i64,
            y: 0i64,
        }),
        right.x == 0 && right.y > 0 ==> fired_projectile(player, right).velocity == (Vector2 {
            x: 0i64,
            y: PROJECTILE_SPEED_UNITS,
        }),
        right.x == 0 && right.y < 0 ==> fired_projectile(player, right).velocity == (Vector2 {
            x: 0i64,
            y: (-PROJECTILE_SPEED_UNITS) as i64,
        }),
{
    let rx = right.x as int;
    let ry = right.y as int;
    let a = if right.y == 0 {
        abs_int(rx)
    } else {
        abs_int(ry)
    };
    assert(rx * rx + ry * ry == a * a) by (nonlinear_arith)
        requires
            (a == rx && ry == 0) || (a == -rx && ry == 0) || (a == ry && rx == 0) || (a == -ry
                && rx == 0),
    ;
    assert(a * a < (a + 1) * (a + 1)) by (nonlinear_arith)
        requires
            a >= 0,
    ;
    lemma_sqrt_floor_unique((a * a) as nat, a as nat);
    let m = sqrt_floor(stick_magnitude_sq(right)) as int;
    assert(m == a);
    lemma_div_by_multiple(PROJECTILE_SPEED_UNITS as int, a);
    assert(PROJECTILE_SPEED_UNITS * a == a * PROJECTILE_SPEED_UNITS) by (nonlinear_arith);
    assert((PROJECTILE_SPEED_UNITS * a) / a == PROJECTILE_SPEED_UNITS);
    assert(PROJECTILE_SPEED_UNITS * abs_int(0) == 0);
    lemma_div_of0(a);
}

/// The player's position after one frame: moved by the left stick at the
/// player speed, then clamped to keep the player's square on screen.
pub open spec fn player_moved(position: Vector2<i64>, left: Vector2<i64>) -> Vector2<i64> {
    Vector2 {
        x: clamped(position.x + PLAYER_SPEED * left.x, 0, PLAYER_MAX_X_UNITS as int) as i64,
        y: clamped(position.y + PLAYER_SPEED * left.y, 0, PLAYER_MAX_Y_UNITS as int) as i64,
    }
}

/// Move the player by the left stick and clamp to the screen. After any
/// frame, whatever the stick reads, the player is on screen.
pub fn update_player(player: &mut Spaceship, left_joystick: Vector2<i64>)
    requires
        old(player).player_wf(),
        stick_wf(left_joystick),
    ensures
        final(player).position == player_moved(old(player).position, left_joystick),
        final(player).player_wf(),
{
    let nx = player.position.x + left_joystick.x * PLAYER_SPEED;
    let ny = player.position.y + left_joystick.y * PLAYER_SPEED;
    player.position.x = clamp(nx, 0, PLAYER_MAX_X_UNITS);
    player.position.y = clamp(ny, 0, PLAYER_MAX_Y_UNITS);
}

/// An enemy moved one frame ahead: a fixed speed to the right.
pub open spec fn moved_enemy(e: Spaceship) -> Spaceship {
    Spaceship {
        position: Vector2 { x: (e.position.x + ENEMY_SPEED_UNITS) as i64, y: e.position.y },
    }
}

/// An enemy slot after one frame: the enemy moves, and is culled once it
/// passes the right screen edge.
pub open spec fn stepped_enemy_slot(slot: Option<Spaceship>) -> Option<Spaceship> {
    match slot {
        Some(e) => {
            let m = moved_enemy(e);
            if m.position.x > SCREEN_WIDTH_UNITS {
                None
            } else {
                Some(m)
            }
        },
        None => None,
    }
}

/// The enemy collection after one frame of motion and culling.
pub open spec fn stepped_enemies(s: Seq<Option<Spaceship>>) -> Seq<Option<Spaceship>> {
    Seq::new(s.len(), |i: int| stepped_enemy_slot(s[i]))
}

/// Move every enemy, mark those now past the right screen edge, and empty
/// the marked slots.
pub fn update_enemies(enemies: &mut Vec<Option<Spaceship>>)
    requires
        enemies_wf(old(enemies)@),
    ensures
        final(enemies)@ == stepped_enemies(old(enemies)@),
        enemies_wf(final(enemies)@),
{
    let mut enemies_to_destroy: Vec<usize> = Vec::new();
    let n = enemies.len();
    let mut i: usize = 0;
    while i < n
        invariant
            i <= n,
            enemies@.len() == n,
            old(enemies)@.len() == n,
            enemies_wf(old(enemies)@),
            forall|k: int| i <= k < n ==> #[trigger] enemies@[k] == old(enemies)@[k],
            forall|k: int|
                0 <= k < i ==> #[trigger] enemies@[k] == (match old(enemies)@[k] {
                    Some(e) => Some(moved_enemy(e)),
                    None => None,
                }),
            forall|k: int|
                0 <= k < enemies_to_destroy@.len() ==> #[trigger] enemies_to_destroy@[k] < i,
            forall|idx: int|
                0 <= idx < i ==> ((exists|k: int|
                    0 <= k < enemies_to_destroy@.len() && #[trigger] enemies_to_destroy@[k]
                        == idx as usize) <==> stepped_enemy_slot(#[trigger] old(enemies)@[idx])
                    is None && old(enemies)@[idx] is Some),
        decreases n - i,
    {
        let slot = enemies[i];
        let ghost marks_before = enemies_to_destroy@;
        match slot {
            Some(e) => {
                proof {
                    assert(enemy_slot_wf(old(enemies)@[i as int]));
                }
                let moved = Spaceship {
                    position: Vector2 { x: e.position.x + ENEMY_SPEED_UNITS, y: e.position.y },
                };
                if moved.position.x > SCREEN_WIDTH_UNITS {
                    enemies_to_destroy.push(i);
                }
                enemies.set(i, Some(moved));
                proof {
                    assert(moved == moved_enemy(e));
                }
            },
            None => {},
        }
        proof {
            let marks = enemies_to_destroy@;
            assert forall|idx: int| 0 <= idx < i + 1 implies ((exists|k: int|
                0 <= k < marks.len() && #[trigger] marks[k] == idx as usize)
                <==> stepped_enemy_slot(old(enemies)@[idx]) is None && old(enemies)@[idx]
                is Some) by {
                assert((idx as usize) as int == idx);
                if idx == i as int {
                    if stepped_enemy_slot(old(enemies)@[idx]) is None && old(enemies)@[idx]
                        is Some {
                        assert(marks[marks.len() - 1] == idx as usize);
                    } else {
                        assert forall|k: int|
                            0 <= k < marks.len() implies #[trigger] marks[k] != idx as usize by {
                            if k < marks_before.len() {
                                assert(marks[k] == marks_before[k]);
                                assert(marks_before[k] < i);
                            }
                        }
                    }
                } else {
                    if exists|k: int| 0 <= k < marks.len() && #[trigger] marks[k] == idx as usize {
                        let k = choose|k: int|
                            0 <= k < marks.len() && #[trigger] marks[k] == idx as usize;
                        assert(k < marks_before.len());
                        assert(marks_before[k] == idx as usize);
                    }
                    if exists|k: int|
                        0 <= k < marks_before.len() && #[trigger] marks_before[k] == idx as usize {
                        let k = choose|k: int|
                            0 <= k < marks_before.len() && #[trigger] marks_before[k]
                                == idx as usize;
                        assert(marks[k] == idx as usize);
                    }
                }
            }
        }
        i += 1;
    }
    proof {
        assert forall|u: usize| (exists|k: int|
            0 <= k < enemies_to_destroy@.len() && #[trigger] enemies_to_destroy@[k] == u)
            <==> #[trigger] enemies_to_destroy@.contains(u) by {
            if enemies_to_destroy@.contains(u) {
                let w = choose|w: int|
                    0 <= w < enemies_to_destroy@.len() && enemies_to_destroy@[w] == u;
                assert(enemies_to_destroy@[w] == u);
            }
        }
    }
    delete_marked_entities(enemies, enemies_to_destroy);
    proof {
        assert forall|idx: int| 0 <= idx < n implies #[trigger] enemies@[idx]
            == stepped_enemy_slot(old(enemies)@[idx]) by {
            assert((idx as usize) as int == idx);
        }
        assert(enemies@ =~= stepped_enemies(old(enemies)@));
    }
}

/// A projectile moved one frame ahead by its velocity.
pub open spec fn moved_projectile(p: Projectile) -> Projectile {
    Projectile {
        position: Vector2 {
            x: (p.position.x + p.velocity.x) as i64,
            y: (p.position.y + p.velocity.y) as i64,
        },
        velocity: p.velocity,
    }
}

/// The projectile's position lies outside the screen rectangle on some
/// axis.
pub open spec fn projectile_out_of_bounds(p: Projectile) -> bool {
    ||| p.position.x < 0
    ||| p.position.x > SCREEN_WIDTH_UNITS
    ||| p.position.y < 0
    ||| p.position.y > SCREEN_HEIGHT_UNITS
}

/// A projectile slot after one frame: the projectile moves by its
/// velocity, and is culled the moment its position leaves the screen.
pub open spec fn stepped_projectile_slot(slot: Option<Projectile>) -> Option<Projectile> {
    match slot {
        Some(p) => {
            let m = moved_projectile(p);
            if projectile_out_of_bounds(m) {
                None
            } else {
                Some(m)
            }
        },
        None => None,
    }
}

/// The projectile collection after one frame of motion and culling.
pub open spec fn stepped_projectiles(s: Seq<Option<Projectile>>) -> Seq<Option<Projectile>> {
    Seq::new(s.len(), |i: int| stepped_projectile_slot(s[i]))
}

/// Law of projectile despawn: a projectile whose motion update takes it
/// off screen leaves an empty slot that same frame; one that stays on
/// screen is kept, moved by its velocity.
pub proof fn lemma_projectile_despawn(s: Seq<Option<Projectile>>, i: int, p: Projectile)
    requires
        0 <= i < s.len(),
        s[i] == Some(p),
    ensures
        projectile_out_of_bounds(moved_projectile(p)) ==> stepped_projectiles(s)[i] is None,
        !projectile_out_of_bounds(moved_projectile(p)) ==> stepped_projectiles(s)[i] == Some(
            moved_projectile(p),
        ),
{
}

/// Move every projectile by its velocity, mark those now off screen, and
/// empty the marked slots.
pub fn update_projectiles(projectiles: &mut Vec<Option<Projectile>>)
    requires
        projectiles_wf(old(projectiles)@),
    ensures
        final(projectiles)@ == stepped_projectiles(old(projectiles)@),
        projectiles_wf(final(projectiles)@),
{
    let mut projectiles_to_destroy: Vec<usize> = Vec::new();
    let n = projectiles.len();
    let mut i: usize = 0;
    while i < n
        invariant
            i <= n,
            projectiles@.len() == n,
            old(projectiles)@.len() == n,
            projectiles_wf(old(projectiles)@),
            forall|k: int| i <= k < n ==> #[trigger] projectiles@[k] == old(projectiles)@[k],
            forall|k: int|
                0 <= k < i ==> #[trigger] projectiles@[k] == (match old(projectiles)@[k] {
                    Some(p) => Some(moved_projectile(p)),
                    None => None,
                }),
            forall|k: int|
                0 <= k < projectiles_to_destroy@.len() ==> #[trigger] projectiles_to_destroy@[k]
                    < i,
            forall|idx: int|
                0 <= idx < i ==> ((exists|k: int|
                    0 <= k < projectiles_to_destroy@.len()
                        && #[trigger] projectiles_to_destroy@[k] == idx as usize)
                    <==> stepped_projectile_slot(#[trigger] old(projectiles)@[idx]) is None && old(
                    projectiles,
                )@[idx] is Some),
        decreases n - i,
    {
        let slot = projectiles[i];
        let ghost marks_before = projectiles_to_destroy@;
        match slot {
            Some(p) => {
                proof {
                    assert(projectile_slot_wf(old(projectiles)@[i as int]));
                }
                let moved = Projectile {
                    position: Vector2 {
                        x: p.position.x + p.velocity.x,
                        y: p.position.y + p.velocity.y,
                    },
                    velocity: p.velocity,
                };
                if moved.position.x < 0 || moved.position.x > SCREEN_WIDTH_UNITS
                    || moved.position.y < 0 || moved.position.y > SCREEN_HEIGHT_UNITS {
                    projectiles_to_destroy.push(i);
                }
                projectiles.set(i, Some(moved));
                proof {
                    assert(moved == moved_projectile(p));
                }
            },
            None => {},
        }
        proof {
            let marks = projectiles_to_destroy@;
            assert forall|idx: int| 0 <= idx < i + 1 implies ((exists|k: int|
                0 <= k < marks.len() && #[trigger] marks[k] == idx as usize)
                <==> stepped_projectile_slot(old(projectiles)@[idx]) is None && old(
                projectiles,
            )@[idx] is Some) by {
                assert((idx as usize) as int == idx);
                if idx == i as int {
                    if stepped_projectile_slot(old(projectiles)@[idx]) is None && old(
                        projectiles,
                    )@[idx] is Some {
                        assert(marks[marks.len() - 1] == idx as usize);
                    } else {
                        assert forall|k: int|
                            0 <= k < marks.len() implies #[trigger] marks[k] != idx as usize by {
                            if k < marks_before.len() {
                                assert(marks[k] == marks_before[k]);
                                assert(marks_before[k] < i);
                            }
                        }
                    }
                } else {
                    if exists|k: int| 0 <= k < marks.len() && #[trigger] marks[k] == idx as usize {
                        let k = choose|k: int|
                            0 <= k < marks.len() && #[trigger] marks[k] == idx as usize;
                        assert(k < marks_before.len());
                        assert(marks_before[k] == idx as usize);
                    }
                    if exists|k: int|
                        0 <= k < marks_before.len() && #[trigger] marks_before[k] == idx as usize {
                        let k = choose|k: int|
                            0 <= k < marks_before.len() && #[trigger] marks_before[k]
                                == idx as usize;
                        assert(marks[k] == idx as usize);
                    }
                }
            }
        }
        i += 1;
    }
    proof {
        assert forall|u: usize| (exists|k: int|
            0 <= k < projectiles_to_destroy@.len() && #[trigger] projectiles_to_destroy@[k] == u)
            <==> #[trigger] projectiles_to_destroy@.contains(u) by {
            if projectiles_to_destroy@.contains(u) {
                let w = choose|w: int|
                    0 <= w < projectiles_to_destroy@.len() && projectiles_to_destroy@[w] == u;
                assert(projectiles_to_destroy@[w] == u);
            }
        }
    }
    delete_marked_entities(projectiles, projectiles_to_destroy);
    proof {
        assert forall|idx: int| 0 <= idx < n implies #[trigger] projectiles@[idx]
            == stepped_projectile_slot(old(projectiles)@[idx]) by {
            assert((idx as usize) as int == idx);
        }
        assert(projectiles@ =~= stepped_projectiles(old(projectiles)@));
    }
}

} // verus!
