//! Canonical controller snapshot and the folding of controller events
//! into it.
//!
//! Analog values are carried as per-mille integers: a trigger reading in
//! `[0, 1]` arrives as `0..=1000`, a stick axis reading in `[-1, 1]` as
//! `-1000..=1000`. Stick axes are quantized to `{-1, 0, 1}` with a
//! deadzone of `0.48` (480 per mille) before they are stored.

use vstd::prelude::*;

verus! {

/// Deadzone for stick axes, in per-mille units of the raw axis range.
pub const DEADZONE: i32 = 480;

/// Full scale of an analog reading, in per-mille units.
pub const FULL_SCALE: i32 = 1000;

/// Quantization of a raw stick axis value `v` (per mille):
/// `0` inside the deadzone or beyond full scale, otherwise the sign of `v`.
pub open spec fn spec_quantize(v: int) -> int {
    if DEADZONE < v <= FULL_SCALE {
        1
    } else if -FULL_SCALE <= v < -DEADZONE {
        -1
    } else {
        0
    }
}

/// Snap a raw stick axis value (per mille) to one of `{-1, 0, 1}`:
/// magnitudes within the deadzone, or beyond full scale, read as rest.
pub fn quantize(v: i32) -> (q: i8)
    ensures
        q == spec_quantize(v as int),
        -1 <= q <= 1,
        -DEADZONE <= v <= DEADZONE ==> q == 0,
        DEADZONE < v <= FULL_SCALE ==> q == 1,
        -FULL_SCALE <= v < -DEADZONE ==> q == -1,
{
    if v > DEADZONE && v <= FULL_SCALE {
        1
    } else if v < -DEADZONE && v >= -FULL_SCALE {
        -1
    } else {
        0
    }
}

/// A controller button the pipeline can be told about. `LeftTrigger` and
/// `RightTrigger` are the digital bumpers; `LeftTrigger2` and
/// `RightTrigger2` are the analog triggers below them. Everything else
/// reaches the pipeline as `Other` and is ignored.
#[derive(Clone, Copy, Debug, PartialEq, Eq, Structural)]
pub enum Button {
    LeftTrigger,
    RightTrigger,
    LeftTrigger2,
    RightTrigger2,
    Other,
}

/// A controller axis the pipeline can be told about. Only the right
/// stick's two axes matter; everything else arrives as `Other`.
#[derive(Clone, Copy, Debug, PartialEq, Eq, Structural)]
pub enum Axis {
    RightStickX,
    RightStickY,
    Other,
}

/// One discrete event from the controller. Analog payloads are per-mille
/// integers: a button value in `0..=1000`, an axis value nominally in
/// `-1000..=1000` (values beyond full scale quantize to rest).
#[derive(Clone, Copy, Debug, PartialEq, Eq, Structural)]
pub enum InputEvent {
    ButtonPressed(Button),
    ButtonRepeated(Button),
    ButtonReleased(Button),
    ButtonValueChanged(Button, u16),
    AxisChanged(Axis, i32),
    Connected,
    Disconnected,
    Dropped,
}

impl InputEvent {
    /// An event is well formed when its analog payload is within the
    /// range the controller can report: a button value in `0..=1000`.
    pub open spec fn wf(self) -> bool {
        match self {
            InputEvent::ButtonValueChanged(_, v) => v <= FULL_SCALE,
            _ => true,
        }
    }
}

/// Canonical controller snapshot. Every field always holds its
/// last-known value; axes that were never reported sit at rest.
#[derive(Clone, Copy, Debug, PartialEq, Eq, Structural)]
pub struct InputState {
    /// Right analog trigger, per mille of full travel (`0..=1000`).
    pub right_trigger: u16,
    /// Left analog trigger, per mille of full travel (`0..=1000`).
    pub left_trigger: u16,
    /// Right bumper held down.
    pub right_bumper: bool,
    /// Left bumper held down.
    pub left_bumper: bool,
    /// Right stick X axis, already quantized to `{-1, 0, 1}`.
    pub right_stick_x: i8,
    /// Right stick Y axis, already quantized to `{-1, 0, 1}`.
    pub right_stick_y: i8,
}

impl InputState {
    /// Triggers within full travel and stick axes quantized.
    pub open spec fn wf(self) -> bool {
        &&& self.right_trigger <= FULL_SCALE
        &&& self.left_trigger <= FULL_SCALE
        &&& -1 <= self.right_stick_x <= 1
        &&& -1 <= self.right_stick_y <= 1
    }

    /// The snapshot at program start: triggers released, bumpers up,
    /// stick at rest.
    pub open spec fn spec_rest() -> InputState {
        InputState {
            right_trigger: 0,
            left_trigger: 0,
            right_bumper: false,
            left_bumper: false,
            right_stick_x: 0,
            right_stick_y: 0,
        }
    }

    /// The snapshot after folding `ev` into `self`: the one field the
    /// event speaks of takes its new value, every other field keeps its
    /// last-known value. Events about buttons and axes the pipeline does
    /// not react to, and stream lifecycle events, change nothing.
    pub open spec fn spec_apply(self, ev: InputEvent) -> InputState {
        match ev {
            InputEvent::ButtonPressed(Button::LeftTrigger) => InputState {
                left_bumper: true,
                ..self
            },
            InputEvent::ButtonPressed(Button::RightTrigger) => InputState {
                right_bumper: true,
                ..self
            },
            InputEvent::ButtonReleased(Button::LeftTrigger) => InputState {
                left_bumper: false,
                ..self
            },
            InputEvent::ButtonReleased(Button::RightTrigger) => InputState {
                right_bumper: false,
                ..self
            },
            InputEvent::ButtonValueChanged(Button::LeftTrigger2, v) => InputState {
                left_trigger: v,
                ..self
            },
            InputEvent::ButtonValueChanged(Button::RightTrigger2, v) => InputState {
                right_trigger: v,
                ..self
            },
            InputEvent::AxisChanged(Axis::RightStickX, v) => InputState {
                right_stick_x: spec_quantize(v as int) as i8,
                ..self
            },
            InputEvent::AxisChanged(Axis::RightStickY, v) => InputState {
                right_stick_y: spec_quantize(v as int) as i8,
                ..self
            },
            _ => self,
        }
    }

    /// Fold one controller event into this snapshot, quantizing stick
    /// axes on the way in.
    pub fn apply(&self, ev: InputEvent) -> (next: InputState)
        requires
            self.wf(),
            ev.wf(),
        ensures
            next == self.spec_apply(ev),
            next.wf(),
    {
        let mut next = *self;
        match ev {
            InputEvent::ButtonPressed(Button::LeftTrigger) => {
                next.left_bumper = true;
            }
            InputEvent::ButtonPressed(Button::RightTrigger) => {
                next.right_bumper = true;
            }
            InputEvent::ButtonReleased(Button::LeftTrigger) => {
                next.left_bumper = false;
            }
            InputEvent::ButtonReleased(Button::RightTrigger) => {
                next.right_bumper = false;
            }
            InputEvent::ButtonValueChanged(Button::LeftTrigger2, v) => {
                next.left_trigger = v;
            }
            InputEvent::ButtonValueChanged(Button::RightTrigger2, v) => {
                next.right_trigger = v;
            }
            InputEvent::AxisChanged(Axis::RightStickX, v) => {
                next.right_stick_x = quantize(v);
            }
            InputEvent::AxisChanged(Axis::RightStickY, v) => {
                next.right_stick_y = quantize(v);
            }
            _ => {}
        }
        next
    }
}

impl Default for InputState {
    /// The rest snapshot: all analog values zero, no button held.
    fn default() -> (s: InputState)
        ensures
            s == InputState::spec_rest(),
    {
        InputState {
            right_trigger: 0,
            left_trigger: 0,
            right_bumper: false,
            left_bumper: false,
            right_stick_x: 0,
            right_stick_y: 0,
        }
    }
}

} // verus!
