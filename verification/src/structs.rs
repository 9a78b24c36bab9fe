//! The game's data model: vectors, entities, and the root game state,
//! together with the well-formedness predicates that every frame
//! establishes and preserves.
//!
//! All coordinates are fixed-point integers in sub-pixel units
//! (`UNITS_PER_PIXEL` units per pixel); joystick components are raw
//! signed 16-bit axis values, which in these units stand for the
//! normalized deflection exactly.

use vstd::prelude::*;

verus! {

use crate::{
    AXIS_MAX, PLAYER_MAX_X_UNITS, PLAYER_MAX_Y_UNITS, PLAYER_WIDTH, PROJECTILE_SPEED_UNITS,
    SCREEN_HEIGHT, SCREEN_HEIGHT_UNITS, SCREEN_WIDTH, SCREEN_WIDTH_UNITS, UNITS_PER_PIXEL,
};

/// A 2D pair, used for positions, velocities and joystick readings.
#[derive(Clone, Copy, Debug)]
pub struct Vector2<T> {
    pub x: T,
    pub y: T,
}

/// The player's ship or an enemy ship: a position in sub-pixel units.
#[derive(Clone, Copy, Debug)]
pub struct Spaceship {
    pub position: Vector2<i64>,
}

/// A fired projectile: position and per-frame velocity, in sub-pixel units.
#[derive(Clone, Copy, Debug)]
pub struct Projectile {
    pub position: Vector2<i64>,
    pub velocity: Vector2<i64>,
}

/// Which screen the game is on. `StartMenu` is initial; the only
/// transition is to `Playing`, on confirm input.
#[derive(Clone, Copy, Debug, PartialEq, Eq, Structural)]
pub enum State {
    Playing,
    StartMenu,
}

/// The root aggregate: everything the simulation reads and writes.
pub struct GameState {
    pub player: Spaceship,
    pub state: State,
    pub left_joystick: Vector2<i64>,
    pub right_joystick: Vector2<i64>,
    pub friendly_projectiles: Vec<Option<Projectile>>,
    pub enemies: Vec<Option<Spaceship>>,
    pub round_number: u32,
}

/// A stored axis value lies within full deflection: the normalized
/// reading is in [-1.0, 1.0].
pub open spec fn axis_in_range(v: int) -> bool {
    -AXIS_MAX <= v <= AXIS_MAX
}

/// Both components of a joystick vector are normalized axis values.
pub open spec fn stick_wf(stick: Vector2<i64>) -> bool {
    axis_in_range(stick.x as int) && axis_in_range(stick.y as int)
}

impl Spaceship {
    /// The player's square lies fully on screen.
    pub open spec fn player_wf(self) -> bool {
        &&& 0 <= self.position.x <= PLAYER_MAX_X_UNITS
        &&& 0 <= self.position.y <= PLAYER_MAX_Y_UNITS
    }

    /// An enemy's corner lies within the screen rectangle.
    pub open spec fn enemy_wf(self) -> bool {
        &&& 0 <= self.position.x <= SCREEN_WIDTH_UNITS
        &&& 0 <= self.position.y <= SCREEN_HEIGHT_UNITS
    }
}

impl Projectile {
    /// The projectile is on screen and no faster than the fixed speed.
    pub open spec fn wf(self) -> bool {
        &&& 0 <= self.position.x <= SCREEN_WIDTH_UNITS
        &&& 0 <= self.position.y <= SCREEN_HEIGHT_UNITS
        &&& -PROJECTILE_SPEED_UNITS <= self.velocity.x <= PROJECTILE_SPEED_UNITS
        &&& -PROJECTILE_SPEED_UNITS <= self.velocity.y <= PROJECTILE_SPEED_UNITS
    }
}

/// An enemy slot is either empty or holds a well-formed enemy.
pub open spec fn enemy_slot_wf(slot: Option<Spaceship>) -> bool {
    slot matches Some(e) ==> e.enemy_wf()
}

/// A projectile slot is either empty or holds a well-formed projectile.
pub open spec fn projectile_slot_wf(slot: Option<Projectile>) -> bool {
    slot matches Some(p) ==> p.wf()
}

/// Every slot of an enemy collection is well formed.
pub open spec fn enemies_wf(s: Seq<Option<Spaceship>>) -> bool {
    forall|i: int| 0 <= i < s.len() ==> enemy_slot_wf(#[trigger] s[i])
}

/// Every slot of a projectile collection is well formed.
pub open spec fn projectiles_wf(s: Seq<Option<Projectile>>) -> bool {
    forall|i: int| 0 <= i < s.len() ==> projectile_slot_wf(#[trigger] s[i])
}

impl GameState {
    /// Well-formedness of the whole game state: the player is on screen,
    /// the joysticks hold raw 16-bit readings, and every occupied slot
    /// holds a well-formed entity.
    pub open spec fn wf(self) -> bool {
        &&& self.player.player_wf()
        &&& stick_wf(self.left_joystick)
        &&& stick_wf(self.right_joystick)
        &&& enemies_wf(self.enemies@)
        &&& projectiles_wf(self.friendly_projectiles@)
    }

    /// The state a fresh game starts in: the player near the screen
    /// center, joysticks neutral, no entities, round zero, start menu.
    pub fn new() -> (gs: GameState)
        ensures
            gs.wf(),
            gs.state == State::StartMenu,
            gs.player.position.x == (SCREEN_WIDTH / 2 - PLAYER_WIDTH) * UNITS_PER_PIXEL,
            gs.player.position.y == (SCREEN_HEIGHT / 2 - PLAYER_WIDTH) * UNITS_PER_PIXEL,
            gs.left_joystick.x == 0 && gs.left_joystick.y == 0,
            gs.right_joystick.x == 0 && gs.right_joystick.y == 0,
            gs.friendly_projectiles@ == Seq::<Option<Projectile>>::empty(),
            gs.enemies@ == Seq::<Option<Spaceship>>::empty(),
            gs.round_number == 0,
    {
        let position = Vector2 {
            x: (SCREEN_WIDTH / 2 - PLAYER_WIDTH) * UNITS_PER_PIXEL,
            y: (SCREEN_HEIGHT / 2 - PLAYER_WIDTH) * UNITS_PER_PIXEL,
        };
        let gs = GameState {
            player: Spaceship { position },
            state: State::StartMenu,
            left_joystick: Vector2 { x: 0, y: 0 },
            right_joystick: Vector2 { x: 0, y: 0 },
            friendly_projectiles: Vec::new(),
            enemies: Vec::new(),
            round_number: 0,
        };
        proof {
            assert(gs.friendly_projectiles@ =~= Seq::<Option<Projectile>>::empty());
            assert(gs.enemies@ =~= Seq::<Option<Spaceship>>::empty());
        }
        gs
    }
}

} // verus!
