//! Normalized input events and the input mapper.
//!
//! The front end translates raw device events into `InputEvent` values;
//! the mapper turns axis motions into joystick vectors with an
//! all-or-nothing deadzone filter, and recognizes quit and confirm
//! inputs.

use vstd::prelude::*;

verus! {

use crate::structs::{stick_wf, Vector2};
use crate::{AXIS_MAX, DEADZONE_DIVISOR, UNITS_PER_PIXEL};

/// A joystick axis of the gamepad.
#[derive(Clone, Copy, Debug, PartialEq, Eq, Structural)]
pub enum JoystickAxis {
    LeftX,
    LeftY,
    RightX,
    RightY,
}

/// A gamepad button the game distinguishes.
#[derive(Clone, Copy, Debug, PartialEq, Eq, Structural)]
pub enum PadButton {
    Start,
    Back,
    Other,
}

/// One normalized input event, as handed in by the front end.
#[derive(Clone, Copy, Debug, PartialEq, Eq, Structural)]
pub enum InputEvent {
    Quit,
    DeviceAdded { which: u32 },
    ButtonDown { button: PadButton },
    KeyDown,
    AxisMotion { axis: JoystickAxis, value: i16 },
    MouseWheel { y: i32 },
}

/// The event asks the game to terminate.
pub open spec fn is_quit_event(ev: InputEvent) -> bool {
    ev == InputEvent::Quit || ev == (InputEvent::ButtonDown { button: PadButton::Back })
}

/// The event confirms the start menu: the start button or any key.
pub open spec fn is_confirm_event(ev: InputEvent) -> bool {
    ev == (InputEvent::ButtonDown { button: PadButton::Start }) || ev == InputEvent::KeyDown
}

/// A raw signed 16-bit axis reading as the stored stick value: the full
/// range maps into [-AXIS_MAX, AXIS_MAX], a normalized deflection in
/// [-1.0, 1.0]. The one reading of larger magnitude, `i16::MIN`,
/// saturates to full deflection.
pub open spec fn normalized_axis(value: i16) -> i64 {
    if value == i16::MIN {
        (-AXIS_MAX) as i64
    } else {
        value as i64
    }
}

/// Normalize a raw axis reading into stored stick units.
pub fn normalize_axis(value: i16) -> (r: i64)
    ensures
        r == normalized_axis(value),
        -AXIS_MAX <= r <= AXIS_MAX,
{
    if value == i16::MIN {
        -AXIS_MAX
    } else {
        value as i64
    }
}

/// Both components of the stick lie strictly within the deadzone: their
/// normalized magnitude is below `1 / DEADZONE_DIVISOR` (that is, 0.20)
/// of full deflection.
pub open spec fn in_deadzone(stick: Vector2<i64>) -> bool {
    &&& -UNITS_PER_PIXEL < DEADZONE_DIVISOR * stick.x < UNITS_PER_PIXEL
    &&& -UNITS_PER_PIXEL < DEADZONE_DIVISOR * stick.y < UNITS_PER_PIXEL
}

/// The deadzone filter: a stick whose both components lie strictly within
/// the deadzone reads as exactly neutral; any other stick reads unchanged.
pub open spec fn deadzone_filtered(stick: Vector2<i64>) -> Vector2<i64> {
    if in_deadzone(stick) {
        Vector2 { x: 0i64, y: 0i64 }
    } else {
        stick
    }
}

/// Apply the deadzone filter to a joystick reading.
pub fn check_deadzone(stick: Vector2<i64>) -> (r: Vector2<i64>)
    requires
        stick_wf(stick),
    ensures
        r == deadzone_filtered(stick),
        stick_wf(r),
{
    let dx = stick.x * DEADZONE_DIVISOR;
    let dy = stick.y * DEADZONE_DIVISOR;
    if dx > -UNITS_PER_PIXEL && dx < UNITS_PER_PIXEL && dy > -UNITS_PER_PIXEL
        && dy < UNITS_PER_PIXEL {
        Vector2 { x: 0, y: 0 }
    } else {
        stick
    }
}

/// The pair of joystick vectors after one axis reading: the named axis
/// component is replaced by the normalized value, then both sticks pass
/// the deadzone filter.
pub open spec fn axis_applied(
    left: Vector2<i64>,
    right: Vector2<i64>,
    axis: JoystickAxis,
    value: i16,
) -> (Vector2<i64>, Vector2<i64>) {
    let l = match axis {
        JoystickAxis::LeftX => Vector2 { x: normalized_axis(value), y: left.y },
        JoystickAxis::LeftY => Vector2 { x: left.x, y: normalized_axis(value) },
        _ => left,
    };
    let r = match axis {
        JoystickAxis::RightX => Vector2 { x: normalized_axis(value), y: right.y },
        JoystickAxis::RightY => Vector2 { x: right.x, y: normalized_axis(value) },
        _ => right,
    };
    (deadzone_filtered(l), deadzone_filtered(r))
}

/// The pair of joystick vectors after a sequence of events, reading the
/// events in order and applying each axis motion; other events leave the
/// sticks alone.
pub open spec fn sticks_after_events(
    left: Vector2<i64>,
    right: Vector2<i64>,
    events: Seq<InputEvent>,
) -> (Vector2<i64>, Vector2<i64>)
    decreases events.len(),
{
    if events.len() == 0 {
        (left, right)
    } else {
        let prior = sticks_after_events(left, right, events.drop_last());
        match events.last() {
            InputEvent::AxisMotion { axis, value } => axis_applied(prior.0, prior.1, axis, value),
            _ => prior,
        }
    }
}

/// The controller indices of the device-added events of a sequence, in
/// order.
pub open spec fn device_add_requests(events: Seq<InputEvent>) -> Seq<u32>
    decreases events.len(),
{
    if events.len() == 0 {
        Seq::empty()
    } else {
        device_add_requests(events.drop_last()) + match events.last() {
            InputEvent::DeviceAdded { which } => seq![which],
            _ => Seq::<u32>::empty(),
        }
    }
}

/// Index of the first quit event of a sequence, or its length when no
/// event asks to quit. Events at or after this index are never processed:
/// the frame that meets a quit event stops at it.
pub open spec fn first_quit_index(events: Seq<InputEvent>) -> int
    decreases events.len(),
{
    if events.len() == 0 {
        0
    } else if is_quit_event(events[0]) {
        0
    } else {
        1 + first_quit_index(events.skip(1))
    }
}

/// Some event of the sequence asks to quit.
pub open spec fn has_quit(events: Seq<InputEvent>) -> bool {
    first_quit_index(events) < events.len()
}

/// A sequence whose first `j` events do not quit, and whose event at `j`
/// does (or which ends at `j`), has its first quit index at `j`.
pub proof fn lemma_first_quit_index_at(events: Seq<InputEvent>, j: int)
    requires
        0 <= j <= events.len(),
        forall|k: int| 0 <= k < j ==> !is_quit_event(#[trigger] events[k]),
        j < events.len() ==> is_quit_event(events[j]),
    ensures
        first_quit_index(events) == j,
    decreases events.len(),
{
    if events.len() == 0 {
    } else if is_quit_event(events[0]) {
    } else {
        assert forall|k: int|
            0 <= k < j - 1 implies !is_quit_event(#[trigger] events.skip(1)[k]) by {
            assert(events.skip(1)[k] == events[k + 1]);
        }
        if j - 1 < events.skip(1).len() {
            assert(events.skip(1)[j - 1] == events[j]);
        }
        lemma_first_quit_index_at(events.skip(1), j - 1);
    }
}

} // verus!
