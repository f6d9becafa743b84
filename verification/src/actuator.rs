//! Actuator identifiers, their wire codes, and the per-actuator
//! endpoint bytes (open / closed / mid, with mirrored polarity on
//! left/right pairs).

use vstd::prelude::*;

verus! {

/// Position byte sent to drive an eye or ear actuator to its rest position.
pub const POS_MID: u8 = 128;

pub const MOUTH_OPEN: u8 = 255;
pub const MOUTH_CLOSED: u8 = 0;
pub const MOUTH_MID: u8 = 128;

pub const EYE_TOP_LEFT_OPEN: u8 = 255;
pub const EYE_TOP_LEFT_CLOSED: u8 = 0;
pub const EYE_BOTTOM_LEFT_OPEN: u8 = 0;
pub const EYE_BOTTOM_LEFT_CLOSED: u8 = 255;
pub const EYE_TOP_RIGHT_OPEN: u8 = 0;
pub const EYE_TOP_RIGHT_CLOSED: u8 = 255;
pub const EYE_BOTTOM_RIGHT_OPEN: u8 = 255;
pub const EYE_BOTTOM_RIGHT_CLOSED: u8 = 0;

pub const EAR_TOP_LEFT_FORWARD: u8 = 255;
pub const EAR_TOP_LEFT_BACKWARD: u8 = 0;
pub const EAR_BOTTOM_LEFT_UP: u8 = 255;
pub const EAR_BOTTOM_LEFT_DOWN: u8 = 0;
pub const EAR_TOP_RIGHT_FORWARD: u8 = 0;
pub const EAR_TOP_RIGHT_BACKWARD: u8 = 255;
pub const EAR_BOTTOM_RIGHT_UP: u8 = 0;
pub const EAR_BOTTOM_RIGHT_DOWN: u8 = 255;

/// One physical servo of the head. The wire encoding is the small
/// integer given by [`ActuatorId::code`]; code 1 is reserved and unused.
#[derive(Clone, Copy, Debug, PartialEq, Eq, Structural)]
pub enum ActuatorId {
    Mouth,
    EyeTopLeft,
    EyeBottomLeft,
    EyeTopRight,
    EyeBottomRight,
    EarTopLeft,
    EarBottomLeft,
    EarTopRight,
    EarBottomRight,
}

impl ActuatorId {
    /// Wire code of this actuator, as placed in byte 13 of a command frame.
    pub open spec fn spec_code(self) -> u8 {
        match self {
            ActuatorId::Mouth => 0,
            ActuatorId::EyeBottomLeft => 2,
            ActuatorId::EyeBottomRight => 3,
            ActuatorId::EyeTopLeft => 4,
            ActuatorId::EyeTopRight => 5,
            ActuatorId::EarBottomLeft => 6,
            ActuatorId::EarBottomRight => 7,
            ActuatorId::EarTopLeft => 8,
            ActuatorId::EarTopRight => 9,
        }
    }

    /// Wire code of this actuator, as placed in byte 13 of a command frame.
    #[verifier::when_used_as_spec(spec_code)]
    pub fn code(self) -> (c: u8)
        ensures
            c == self.spec_code(),
    {
        match self {
            ActuatorId::Mouth => 0,
            ActuatorId::EyeBottomLeft => 2,
            ActuatorId::EyeBottomRight => 3,
            ActuatorId::EyeTopLeft => 4,
            ActuatorId::EyeTopRight => 5,
            ActuatorId::EarBottomLeft => 6,
            ActuatorId::EarBottomRight => 7,
            ActuatorId::EarTopLeft => 8,
            ActuatorId::EarTopRight => 9,
        }
    }
}

/// One actuator target produced by the mapper: drive `id` to position `pos`.
#[derive(Clone, Copy, Debug, PartialEq, Eq, Structural)]
pub struct Update {
    pub id: ActuatorId,
    pub pos: u8,
}

} // verus!
