//! The render pass: a pure translation of the frame's final state into an
//! ordered list of draw commands. The front end executes the commands; it
//! never reads game state itself.

use vstd::prelude::*;

verus! {

use crate::structs::{GameState, Projectile, Spaceship};
use crate::round::RoundTransition;
use crate::util::{clamp, sat_i32};
use crate::{PLAYER_WIDTH, SCREEN_HEIGHT, SCREEN_WIDTH, SCREEN_WIDTH_UNITS, UNITS_PER_PIXEL};

/// Vertical offset of the title from screen center, in pixels.
pub const TITLE_Y_OFFSET: i32 = -200;

/// A color, as red, green and blue channels.
#[derive(Clone, Copy, Debug, PartialEq, Eq, Structural)]
pub struct Rgb {
    pub r: u8,
    pub g: u8,
    pub b: u8,
}

/// Which pre-rendered text a draw command shows. The front end rasterizes
/// the text; the library only names it.
#[derive(Clone, Copy, Debug, PartialEq, Eq, Structural)]
pub enum TextId {
    Title,
    PressStart,
    RoundNumber { number: u32 },
}

/// One draw command, in the order the renderer must execute them.
#[derive(Clone, Copy, Debug, PartialEq, Eq, Structural)]
pub enum DrawCmd {
    Clear { color: Rgb },
    FillRect { x: i32, y: i32, width: u32, height: u32, color: Rgb },
    DrawPoint { x: i32, y: i32, color: Rgb },
    CenteredText { text: TextId, y_offset: i32 },
}

/// Color the screen is cleared to.
pub open spec fn background_color() -> Rgb {
    Rgb { r: 0, g: 0, b: 0 }
}

/// Color of the player's ship and of projectiles.
pub open spec fn ship_color() -> Rgb {
    Rgb { r: 150, g: 150, b: 150 }
}

/// Color of enemy ships.
pub open spec fn enemy_color() -> Rgb {
    Rgb { r: 50, g: 120, b: 0 }
}

/// A sub-pixel coordinate converted to whole pixels.
pub open spec fn pixel_of(units: int) -> int {
    units / (UNITS_PER_PIXEL as int)
}

/// The filled square for the player's ship.
pub open spec fn player_rect_cmd(player: Spaceship) -> DrawCmd {
    DrawCmd::FillRect {
        x: pixel_of(player.position.x as int) as i32,
        y: pixel_of(player.position.y as int) as i32,
        width: PLAYER_WIDTH as u32,
        height: PLAYER_WIDTH as u32,
        color: ship_color(),
    }
}

/// The filled square for an enemy ship.
pub open spec fn enemy_rect_cmd(e: Spaceship) -> DrawCmd {
    DrawCmd::FillRect {
        x: pixel_of(e.position.x as int) as i32,
        y: pixel_of(e.position.y as int) as i32,
        width: PLAYER_WIDTH as u32,
        height: PLAYER_WIDTH as u32,
        color: enemy_color(),
    }
}

/// The single point for a projectile.
pub open spec fn projectile_point_cmd(p: Projectile) -> DrawCmd {
    DrawCmd::DrawPoint {
        x: pixel_of(p.position.x as int) as i32,
        y: pixel_of(p.position.y as int) as i32,
        color: ship_color(),
    }
}

/// The draw commands for the occupied enemy slots, in slot order.
pub open spec fn enemy_draw_cmds(s: Seq<Option<Spaceship>>) -> Seq<DrawCmd>
    decreases s.len(),
{
    if s.len() == 0 {
        Seq::empty()
    } else {
        enemy_draw_cmds(s.drop_last()) + match s.last() {
            Some(e) => seq![enemy_rect_cmd(e)],
            None => Seq::<DrawCmd>::empty(),
        }
    }
}

/// The draw commands for the occupied projectile slots, in slot order.
pub open spec fn projectile_draw_cmds(s: Seq<Option<Projectile>>) -> Seq<DrawCmd>
    decreases s.len(),
{
    if s.len() == 0 {
        Seq::empty()
    } else {
        projectile_draw_cmds(s.drop_last()) + match s.last() {
            Some(p) => seq![projectile_point_cmd(p)],
            None => Seq::<DrawCmd>::empty(),
        }
    }
}

/// The full draw list of a playing frame: clear, the player's square,
/// every enemy, every projectile, and the round announcement while a
/// transition is under way.
pub open spec fn playing_draw_cmds(gs: GameState, rt: RoundTransition) -> Seq<DrawCmd> {
    seq![
        DrawCmd::Clear { color: background_color() },
        player_rect_cmd(gs.player),
    ] + enemy_draw_cmds(gs.enemies@) + projectile_draw_cmds(gs.friendly_projectiles@) + if rt.going_to_next_round {
        seq![
            DrawCmd::CenteredText {
                text: TextId::RoundNumber { number: gs.round_number },
                y_offset: 0i32,
            },
        ]
    } else {
        Seq::<DrawCmd>::empty()
    }
}

/// The full draw list of a start-menu frame: clear, the title, and the
/// prompt whenever its flash phase shows it.
pub open spec fn menu_draw_cmds(displaying: bool, press_start_position: i32) -> Seq<DrawCmd> {
    seq![
        DrawCmd::Clear { color: background_color() },
        DrawCmd::CenteredText { text: TextId::Title, y_offset: TITLE_Y_OFFSET },
    ] + if displaying {
        seq![DrawCmd::CenteredText { text: TextId::PressStart, y_offset: press_start_position }]
    } else {
        Seq::<DrawCmd>::empty()
    }
}

/// A sub-pixel coordinate converted to whole pixels.
pub fn units_to_pixels(units: i64) -> (px: i32)
    requires
        0 <= units <= SCREEN_WIDTH_UNITS,
    ensures
        px == pixel_of(units as int),
{
    ((units as u64) / (UNITS_PER_PIXEL as u64)) as i32
}

/// Where a texture of the given size goes to sit centered on screen,
/// shifted down by `y_offset`: the top-left corner of its destination.
/// The vertical position saturates at the range of `i32`.
pub fn centered_dest(width: u32, height: u32, y_offset: i32) -> (dst: (i32, i32))
    requires
        width <= SCREEN_WIDTH,
        height <= SCREEN_HEIGHT,
    ensures
        dst.0 == SCREEN_WIDTH / 2 - (width as int) / 2,
        dst.1 == sat_i32(SCREEN_HEIGHT / 2 - (height as int) / 2 + y_offset),
{
    let xpos = ((SCREEN_WIDTH as u32) / 2 - width / 2) as i32;
    let ybase = ((SCREEN_HEIGHT as u32) / 2 - height / 2) as i64;
    let ypos = clamp(ybase + y_offset as i64, i32::MIN as i64, i32::MAX as i64) as i32;
    (xpos, ypos)
}

/// Emit the draw commands of a playing frame.
pub fn render_playing(gs: &GameState, rt: &RoundTransition) -> (cmds: Vec<DrawCmd>)
    requires
        gs.wf(),
    ensures
        cmds@ == playing_draw_cmds(*gs, *rt),
{
    let mut cmds: Vec<DrawCmd> = Vec::new();
    cmds.push(DrawCmd::Clear { color: Rgb { r: 0, g: 0, b: 0 } });
    let px = units_to_pixels(gs.player.position.x);
    let py = units_to_pixels(gs.player.position.y);
    cmds.push(
        DrawCmd::FillRect {
            x: px,
            y: py,
            width: PLAYER_WIDTH as u32,
            height: PLAYER_WIDTH as u32,
            color: Rgb { r: 150, g: 150, b: 150 },
        },
    );
    let ghost header = cmds@;
    proof {
        assert(header =~= seq![
            DrawCmd::Clear { color: background_color() },
            player_rect_cmd(gs.player),
        ]);
        assert(enemy_draw_cmds(gs.enemies@.take(0)) =~= Seq::<DrawCmd>::empty());
        assert(cmds@ =~= header + enemy_draw_cmds(gs.enemies@.take(0)));
    }
    let n = gs.enemies.len();
    let mut i: usize = 0;
    while i < n
        invariant
            i <= n,
            gs.enemies@.len() == n,
            gs.wf(),
            cmds@ == header + enemy_draw_cmds(gs.enemies@.take(i as int)),
        decreases n - i,
    {
        let ghost s = gs.enemies@;
        proof {
            assert(s.take(i + 1).drop_last() =~= s.take(i as int));
            assert(s.take(i + 1).last() == s[i as int]);
            assert(crate::structs::enemy_slot_wf(s[i as int]));
        }
        match &gs.enemies[i] {
            Some(e) => {
                let ex = units_to_pixels(e.position.x);
                let ey = units_to_pixels(e.position.y);
                cmds.push(
                    DrawCmd::FillRect {
                        x: ex,
                        y: ey,
                        width: PLAYER_WIDTH as u32,
                        height: PLAYER_WIDTH as u32,
                        color: Rgb { r: 50, g: 120, b: 0 },
                    },
                );
                proof {
                    assert(cmds@ =~= header + enemy_draw_cmds(s.take(i + 1)));
                }
            },
            None => {
                proof {
                    assert(cmds@ =~= header + enemy_draw_cmds(s.take(i + 1)));
                }
            },
        }
        i += 1;
    }
    proof {
        assert(gs.enemies@.take(n as int) =~= gs.enemies@);
        assert(projectile_draw_cmds(gs.friendly_projectiles@.take(0)) =~= Seq::<
            DrawCmd,
        >::empty());
        assert(cmds@ =~= header + enemy_draw_cmds(gs.enemies@) + projectile_draw_cmds(
            gs.friendly_projectiles@.take(0),
        ));
    }
    let ghost header2 = header + enemy_draw_cmds(gs.enemies@);
    let m = gs.friendly_projectiles.len();
    let mut j: usize = 0;
    while j < m
        invariant
            j <= m,
            gs.friendly_projectiles@.len() == m,
            gs.wf(),
            cmds@ == header2 + projectile_draw_cmds(gs.friendly_projectiles@.take(j as int)),
        decreases m - j,
    {
        let ghost s = gs.friendly_projectiles@;
        proof {
            assert(s.take(j + 1).drop_last() =~= s.take(j as int));
            assert(s.take(j + 1).last() == s[j as int]);
            assert(crate::structs::projectile_slot_wf(s[j as int]));
        }
        match &gs.friendly_projectiles[j] {
            Some(p) => {
                let qx = units_to_pixels(p.position.x);
                let qy = units_to_pixels(p.position.y);
                cmds.push(DrawCmd::DrawPoint { x: qx, y: qy, color: Rgb { r: 150, g: 150, b: 150 } });
                proof {
                    assert(cmds@ =~= header2 + projectile_draw_cmds(s.take(j + 1)));
                }
            },
            None => {
                proof {
                    assert(cmds@ =~= header2 + projectile_draw_cmds(s.take(j + 1)));
                }
            },
        }
        j += 1;
    }
    proof {
        assert(gs.friendly_projectiles@.take(m as int) =~= gs.friendly_projectiles@);
    }
    if rt.going_to_next_round {
        cmds.push(
            DrawCmd::CenteredText {
                text: TextId::RoundNumber { number: gs.round_number },
                y_offset: 0,
            },
        );
    }
    proof {
        assert(cmds@ =~= playing_draw_cmds(*gs, *rt));
    }
    cmds
}

/// Emit the draw commands of a start-menu frame.
pub fn render_menu(displaying: bool, press_start_position: i32) -> (cmds: Vec<DrawCmd>)
    ensures
        cmds@ == menu_draw_cmds(displaying, press_start_position),
{
    let mut cmds: Vec<DrawCmd> = Vec::new();
    cmds.push(DrawCmd::Clear { color: Rgb { r: 0, g: 0, b: 0 } });
    cmds.push(DrawCmd::CenteredText { text: TextId::Title, y_offset: TITLE_Y_OFFSET });
    if displaying {
        cmds.push(
            DrawCmd::CenteredText { text: TextId::PressStart, y_offset: press_start_position },
        );
    }
    proof {
        assert(cmds@ =~= menu_draw_cmds(displaying, press_start_position));
    }
    cmds
}

} // verus!
