//! Snapshot of where every actuator was last driven.

use vstd::prelude::*;

verus! {

/// Discrete mouth posture, driven by the bumper edges.
#[derive(Clone, Copy, Debug, PartialEq, Eq, Structural)]
pub enum MouthGesture {
    Open,
    Mid,
    Closed,
}

/// Snapshot of the actuator targets last committed. Eye openness and the
/// ear bytes use the canonical scale `0..=255` with `128` as the rest
/// position; eye openness is polarity-free (`0` closed, `255` open),
/// while each ear byte is the raw value of its own servo.
#[derive(Clone, Copy, Debug, PartialEq, Eq, Structural)]
pub struct ActuatorState {
    pub mouth_gesture: MouthGesture,
    pub eye_openness_left: u8,
    pub eye_openness_right: u8,
    pub ear_yaw_left: u8,
    pub ear_yaw_right: u8,
    pub ear_pitch_left: u8,
    pub ear_pitch_right: u8,
}

impl ActuatorState {
    /// The rest snapshot driven at startup: mouth closed, everything
    /// else at its mid position.
    pub open spec fn spec_rest() -> ActuatorState {
        ActuatorState {
            mouth_gesture: MouthGesture::Closed,
            eye_openness_left: 128,
            eye_openness_right: 128,
            ear_yaw_left: 128,
            ear_yaw_right: 128,
            ear_pitch_left: 128,
            ear_pitch_right: 128,
        }
    }
}

impl Default for ActuatorState {
    /// The rest snapshot: mouth closed, every analog actuator at mid.
    fn default() -> (s: ActuatorState)
        ensures
            s == ActuatorState::spec_rest(),
    {
        ActuatorState {
            mouth_gesture: MouthGesture::Closed,
            eye_openness_left: 128,
            eye_openness_right: 128,
            ear_yaw_left: 128,
            ear_yaw_right: 128,
            ear_pitch_left: 128,
            ear_pitch_right: 128,
        }
    }
}

} // verus!
