//! Mapping of input changes to actuator targets: trigger interpolation,
//! the diff between two input snapshots, and the resulting ordered
//! update list.

use vstd::prelude::*;
use vstd::arithmetic::div_mod::lemma_div_is_ordered;
use vstd::arithmetic::div_mod::lemma_div_multiples_vanish;
use vstd::arithmetic::mul::lemma_mul_inequality;
use crate::actuator::ActuatorId;
use crate::actuator::Update;
use crate::actuator::POS_MID;
use crate::actuator::MOUTH_OPEN;
use crate::actuator::MOUTH_CLOSED;
use crate::actuator::MOUTH_MID;
use crate::actuator::EYE_TOP_LEFT_OPEN;
use crate::actuator::EYE_TOP_LEFT_CLOSED;
use crate::actuator::EYE_BOTTOM_LEFT_OPEN;
use crate::actuator::EYE_BOTTOM_LEFT_CLOSED;
use crate::actuator::EYE_TOP_RIGHT_OPEN;
use crate::actuator::EYE_TOP_RIGHT_CLOSED;
use crate::actuator::EYE_BOTTOM_RIGHT_OPEN;
use crate::actuator::EYE_BOTTOM_RIGHT_CLOSED;
use crate::actuator::EAR_TOP_LEFT_FORWARD;
use crate::actuator::EAR_TOP_LEFT_BACKWARD;
use crate::actuator::EAR_BOTTOM_LEFT_UP;
use crate::actuator::EAR_BOTTOM_LEFT_DOWN;
use crate::actuator::EAR_TOP_RIGHT_FORWARD;
use crate::actuator::EAR_TOP_RIGHT_BACKWARD;
use crate::actuator::EAR_BOTTOM_RIGHT_UP;
use crate::actuator::EAR_BOTTOM_RIGHT_DOWN;
use crate::input::Button;
use crate::input::FULL_SCALE;
use crate::input::InputEvent;
use crate::input::InputState;
use crate::state::ActuatorState;
use crate::state::MouthGesture;

verus! {

/// Linear interpolation of a trigger value `t` (per mille of full
/// travel) between the rest byte `mid` (at `t == 0`) and the endpoint
/// byte `end` (at full travel), as an unbounded integer.
pub open spec fn spec_interp(t: int, mid: u8, end: u8) -> int {
    if end >= mid {
        mid + (t * (end - mid)) / (FULL_SCALE as int)
    } else {
        mid - (t * (mid - end)) / (FULL_SCALE as int)
    }
}

/// [`spec_interp`] narrowed to the byte it denotes; for `t` within full
/// travel the value already lies between `mid` and `end`.
pub open spec fn interp_byte(t: u16, mid: u8, end: u8) -> u8 {
    spec_interp(t as int, mid, end) as u8
}

/// For a trigger value within full travel, the interpolated position
/// lies in the closed byte range bounded by `mid` and `end`, and meets
/// the two endpoints exactly.
pub proof fn lemma_interp_range(t: int, mid: u8, end: u8)
    requires
        0 <= t <= FULL_SCALE,
    ensures
        end >= mid ==> mid <= spec_interp(t, mid, end) <= end,
        end < mid ==> end <= spec_interp(t, mid, end) <= mid,
        t == 0 ==> spec_interp(t, mid, end) == mid,
        t == FULL_SCALE ==> spec_interp(t, mid, end) == end,
        interp_byte(t as u16, mid, end) == spec_interp(t, mid, end),
{
    let d: int = if end >= mid { end - mid } else { mid - end };
    lemma_mul_inequality(0, t, d);
    lemma_mul_inequality(t, FULL_SCALE as int, d);
    lemma_div_is_ordered(0, t * d, FULL_SCALE as int);
    lemma_div_is_ordered(t * d, FULL_SCALE * d, FULL_SCALE as int);
    lemma_div_multiples_vanish(d, FULL_SCALE as int);
    assert((0 * d) == 0) by (nonlinear_arith);
    assert((0int / (FULL_SCALE as int)) == 0);
}

/// The interpolated position is monotonic in the trigger value: toward
/// `end` as `t` grows, whichever side of `mid` the endpoint lies on.
pub proof fn lemma_interp_monotonic(t1: int, t2: int, mid: u8, end: u8)
    requires
        0 <= t1 <= t2 <= FULL_SCALE,
    ensures
        end >= mid ==> spec_interp(t1, mid, end) <= spec_interp(t2, mid, end),
        end < mid ==> spec_interp(t1, mid, end) >= spec_interp(t2, mid, end),
{
    let d: int = if end >= mid { end - mid } else { mid - end };
    lemma_mul_inequality(t1, t2, d);
    lemma_div_is_ordered(t1 * d, t2 * d, FULL_SCALE as int);
}

/// Interpolate a trigger position between `mid` and `end`.
pub fn interp(t: u16, mid: u8, end: u8) -> (r: u8)
    requires
        t <= FULL_SCALE,
    ensures
        r == spec_interp(t as int, mid, end),
        r == interp_byte(t, mid, end),
{
    proof {
        lemma_interp_range(t as int, mid, end);
    }
    if end >= mid {
        let d: u32 = (end - mid) as u32;
        let q: u32 = (t as u32 * d) / 1000;
        mid + (q as u8)
    } else {
        let d: u32 = (mid - end) as u32;
        let q: u32 = (t as u32 * d) / 1000;
        mid - (q as u8)
    }
}

/// Mouth updates for one event: edge-triggered on the bumpers, the
/// right bumper's edge taking priority over the left bumper's.
pub open spec fn mouth_updates(prev: InputState, cur: InputState) -> Seq<Update> {
    if cur.right_bumper != prev.right_bumper {
        seq![
            Update {
                id: ActuatorId::Mouth,
                pos: if cur.right_bumper { MOUTH_OPEN } else { MOUTH_CLOSED },
            },
        ]
    } else if cur.left_bumper != prev.left_bumper {
        seq![
            Update {
                id: ActuatorId::Mouth,
                pos: if cur.left_bumper { MOUTH_MID } else { MOUTH_CLOSED },
            },
        ]
    } else {
        Seq::empty()
    }
}

/// Eye updates for one event: the right trigger drives all four eye
/// actuators toward their closed endpoints, the left trigger toward
/// their open endpoints, right-trigger changes taking priority; emitted
/// in the fixed order top-left, bottom-left, top-right, bottom-right.
pub open spec fn eye_updates(prev: InputState, cur: InputState) -> Seq<Update> {
    if cur.right_trigger != prev.right_trigger {
        seq![
            Update {
                id: ActuatorId::EyeTopLeft,
                pos: interp_byte(cur.right_trigger, POS_MID, EYE_TOP_LEFT_CLOSED),
            },
            Update {
                id: ActuatorId::EyeBottomLeft,
                pos: interp_byte(cur.right_trigger, POS_MID, EYE_BOTTOM_LEFT_CLOSED),
            },
            Update {
                id: ActuatorId::EyeTopRight,
                pos: interp_byte(cur.right_trigger, POS_MID, EYE_TOP_RIGHT_CLOSED),
            },
            Update {
                id: ActuatorId::EyeBottomRight,
                pos: interp_byte(cur.right_trigger, POS_MID, EYE_BOTTOM_RIGHT_CLOSED),
            },
        ]
    } else if cur.left_trigger != prev.left_trigger {
        seq![
            Update {
                id: ActuatorId::EyeTopLeft,
                pos: interp_byte(cur.left_trigger, POS_MID, EYE_TOP_LEFT_OPEN),
            },
            Update {
                id: ActuatorId::EyeBottomLeft,
                pos: interp_byte(cur.left_trigger, POS_MID, EYE_BOTTOM_LEFT_OPEN),
            },
            Update {
                id: ActuatorId::EyeTopRight,
                pos: interp_byte(cur.left_trigger, POS_MID, EYE_TOP_RIGHT_OPEN),
            },
            Update {
                id: ActuatorId::EyeBottomRight,
                pos: interp_byte(cur.left_trigger, POS_MID, EYE_BOTTOM_RIGHT_OPEN),
            },
        ]
    } else {
        Seq::empty()
    }
}

/// Raw byte for the right top-ear servo given the quantized stick X
/// value: positive X swings the ears backward, negative X forward.
pub open spec fn ear_yaw_right_byte(x: i8) -> u8 {
    if x == 1 {
        EAR_TOP_RIGHT_BACKWARD
    } else if x == -1 {
        EAR_TOP_RIGHT_FORWARD
    } else {
        POS_MID
    }
}

/// Raw byte for the left top-ear servo given the quantized stick X
/// value; polarity mirrored against the right side.
pub open spec fn ear_yaw_left_byte(x: i8) -> u8 {
    if x == 1 {
        EAR_TOP_LEFT_BACKWARD
    } else if x == -1 {
        EAR_TOP_LEFT_FORWARD
    } else {
        POS_MID
    }
}

/// Raw byte for the right bottom-ear servo given the quantized stick Y
/// value: positive Y swings the ears up, negative Y down.
pub open spec fn ear_pitch_right_byte(y: i8) -> u8 {
    if y == 1 {
        EAR_BOTTOM_RIGHT_UP
    } else if y == -1 {
        EAR_BOTTOM_RIGHT_DOWN
    } else {
        POS_MID
    }
}

/// Raw byte for the left bottom-ear servo given the quantized stick Y
/// value; polarity mirrored against the right side.
pub open spec fn ear_pitch_left_byte(y: i8) -> u8 {
    if y == 1 {
        EAR_BOTTOM_LEFT_UP
    } else if y == -1 {
        EAR_BOTTOM_LEFT_DOWN
    } else {
        POS_MID
    }
}

/// Ear yaw updates for one event: emitted only when the quantized stick
/// X value changed, right top ear first.
pub open spec fn ear_yaw_updates(prev: InputState, cur: InputState) -> Seq<Update> {
    if cur.right_stick_x != prev.right_stick_x {
        seq![
            Update { id: ActuatorId::EarTopRight, pos: ear_yaw_right_byte(cur.right_stick_x) },
            Update { id: ActuatorId::EarTopLeft, pos: ear_yaw_left_byte(cur.right_stick_x) },
        ]
    } else {
        Seq::empty()
    }
}

/// Ear pitch updates for one event: emitted only when the quantized
/// stick Y value changed, right bottom ear first.
pub open spec fn ear_pitch_updates(prev: InputState, cur: InputState) -> Seq<Update> {
    if cur.right_stick_y != prev.right_stick_y {
        seq![
            Update { id: ActuatorId::EarBottomRight, pos: ear_pitch_right_byte(cur.right_stick_y) },
            Update { id: ActuatorId::EarBottomLeft, pos: ear_pitch_left_byte(cur.right_stick_y) },
        ]
    } else {
        Seq::empty()
    }
}

/// The full ordered update list for one event: mouth, then eyes, then
/// ear yaw, then ear pitch.
pub open spec fn spec_updates(prev: InputState, cur: InputState) -> Seq<Update> {
    mouth_updates(prev, cur) + eye_updates(prev, cur) + ear_yaw_updates(prev, cur)
        + ear_pitch_updates(prev, cur)
}

/// Diff the new input snapshot against the previous one and produce the
/// ordered list of actuator targets to send.
pub fn map_updates(prev: &InputState, cur: &InputState) -> (ups: Vec<Update>)
    requires
        prev.wf(),
        cur.wf(),
    ensures
        ups@ == spec_updates(*prev, *cur),
{
    let mut ups: Vec<Update> = Vec::new();

    if cur.right_bumper != prev.right_bumper {
        let pos: u8 = if cur.right_bumper { MOUTH_OPEN } else { MOUTH_CLOSED };
        ups.push(Update { id: ActuatorId::Mouth, pos });
    } else if cur.left_bumper != prev.left_bumper {
        let pos: u8 = if cur.left_bumper { MOUTH_MID } else { MOUTH_CLOSED };
        ups.push(Update { id: ActuatorId::Mouth, pos });
    }
    proof {
        assert(ups@ =~= mouth_updates(*prev, *cur));
    }

    if cur.right_trigger != prev.right_trigger {
        let t: u16 = cur.right_trigger;
        ups.push(Update { id: ActuatorId::EyeTopLeft, pos: interp(t, POS_MID, EYE_TOP_LEFT_CLOSED) });
        ups.push(Update { id: ActuatorId::EyeBottomLeft, pos: interp(t, POS_MID, EYE_BOTTOM_LEFT_CLOSED) });
        ups.push(Update { id: ActuatorId::EyeTopRight, pos: interp(t, POS_MID, EYE_TOP_RIGHT_CLOSED) });
        ups.push(Update { id: ActuatorId::EyeBottomRight, pos: interp(t, POS_MID, EYE_BOTTOM_RIGHT_CLOSED) });
    } else if cur.left_trigger != prev.left_trigger {
        let t: u16 = cur.left_trigger;
        ups.push(Update { id: ActuatorId::EyeTopLeft, pos: interp(t, POS_MID, EYE_TOP_LEFT_OPEN) });
        ups.push(Update { id: ActuatorId::EyeBottomLeft, pos: interp(t, POS_MID, EYE_BOTTOM_LEFT_OPEN) });
        ups.push(Update { id: ActuatorId::EyeTopRight, pos: interp(t, POS_MID, EYE_TOP_RIGHT_OPEN) });
        ups.push(Update { id: ActuatorId::EyeBottomRight, pos: interp(t, POS_MID, EYE_BOTTOM_RIGHT_OPEN) });
    }
    proof {
        assert(ups@ =~= mouth_updates(*prev, *cur) + eye_updates(*prev, *cur));
    }

    if cur.right_stick_x != prev.right_stick_x {
        ups.push(Update { id: ActuatorId::EarTopRight, pos: ear_yaw_right(cur.right_stick_x) });
        ups.push(Update { id: ActuatorId::EarTopLeft, pos: ear_yaw_left(cur.right_stick_x) });
    }
    proof {
        assert(ups@ =~= mouth_updates(*prev, *cur) + eye_updates(*prev, *cur)
            + ear_yaw_updates(*prev, *cur));
    }

    if cur.right_stick_y != prev.right_stick_y {
        ups.push(Update { id: ActuatorId::EarBottomRight, pos: ear_pitch_right(cur.right_stick_y) });
        ups.push(Update { id: ActuatorId::EarBottomLeft, pos: ear_pitch_left(cur.right_stick_y) });
    }
    proof {
        assert(ups@ =~= spec_updates(*prev, *cur));
    }

    ups
}

/// Raw byte for the right top-ear servo from the quantized stick X value.
#[verifier::when_used_as_spec(ear_yaw_right_byte)]
pub fn ear_yaw_right(x: i8) -> (r: u8)
    ensures
        r == ear_yaw_right_byte(x),
{
    if x == 1 {
        EAR_TOP_RIGHT_BACKWARD
    } else if x == -1 {
        EAR_TOP_RIGHT_FORWARD
    } else {
        POS_MID
    }
}

/// Raw byte for the left top-ear servo from the quantized stick X value.
#[verifier::when_used_as_spec(ear_yaw_left_byte)]
pub fn ear_yaw_left(x: i8) -> (r: u8)
    ensures
        r == ear_yaw_left_byte(x),
{
    if x == 1 {
        EAR_TOP_LEFT_BACKWARD
    } else if x == -1 {
        EAR_TOP_LEFT_FORWARD
    } else {
        POS_MID
    }
}

/// Raw byte for the right bottom-ear servo from the quantized stick Y value.
#[verifier::when_used_as_spec(ear_pitch_right_byte)]
pub fn ear_pitch_right(y: i8) -> (r: u8)
    ensures
        r == ear_pitch_right_byte(y),
{
    if y == 1 {
        EAR_BOTTOM_RIGHT_UP
    } else if y == -1 {
        EAR_BOTTOM_RIGHT_DOWN
    } else {
        POS_MID
    }
}

/// Raw byte for the left bottom-ear servo from the quantized stick Y value.
#[verifier::when_used_as_spec(ear_pitch_left_byte)]
pub fn ear_pitch_left(y: i8) -> (r: u8)
    ensures
        r == ear_pitch_left_byte(y),
{
    if y == 1 {
        EAR_BOTTOM_LEFT_UP
    } else if y == -1 {
        EAR_BOTTOM_LEFT_DOWN
    } else {
        POS_MID
    }
}

/// Canonical eye openness after one event: `0` closed, `255` open,
/// `128` at rest; both eyes always share it.
pub open spec fn next_eye_openness(prevval: u8, prev: InputState, cur: InputState) -> u8 {
    if cur.right_trigger != prev.right_trigger {
        interp_byte(cur.right_trigger, 128, 0)
    } else if cur.left_trigger != prev.left_trigger {
        interp_byte(cur.left_trigger, 128, 255)
    } else {
        prevval
    }
}

/// Mouth posture after one event, following the edge-triggered bumper
/// rules.
pub open spec fn next_mouth(prevval: MouthGesture, prev: InputState, cur: InputState) -> MouthGesture {
    if cur.right_bumper != prev.right_bumper {
        if cur.right_bumper {
            MouthGesture::Open
        } else {
            MouthGesture::Closed
        }
    } else if cur.left_bumper != prev.left_bumper {
        if cur.left_bumper {
            MouthGesture::Mid
        } else {
            MouthGesture::Closed
        }
    } else {
        prevval
    }
}

/// The actuator snapshot after one event: each field follows its own
/// input, keeping its last value when that input did not change.
pub open spec fn spec_next_state(act: ActuatorState, prev: InputState, cur: InputState) -> ActuatorState {
    ActuatorState {
        mouth_gesture: next_mouth(act.mouth_gesture, prev, cur),
        eye_openness_left: next_eye_openness(act.eye_openness_left, prev, cur),
        eye_openness_right: next_eye_openness(act.eye_openness_right, prev, cur),
        ear_yaw_left: if cur.right_stick_x != prev.right_stick_x {
            ear_yaw_left_byte(cur.right_stick_x)
        } else {
            act.ear_yaw_left
        },
        ear_yaw_right: if cur.right_stick_x != prev.right_stick_x {
            ear_yaw_right_byte(cur.right_stick_x)
        } else {
            act.ear_yaw_right
        },
        ear_pitch_left: if cur.right_stick_y != prev.right_stick_y {
            ear_pitch_left_byte(cur.right_stick_y)
        } else {
            act.ear_pitch_left
        },
        ear_pitch_right: if cur.right_stick_y != prev.right_stick_y {
            ear_pitch_right_byte(cur.right_stick_y)
        } else {
            act.ear_pitch_right
        },
    }
}

/// Advance the actuator snapshot across one event's input change.
pub fn next_state(act: &ActuatorState, prev: &InputState, cur: &InputState) -> (next: ActuatorState)
    requires
        prev.wf(),
        cur.wf(),
    ensures
        next == spec_next_state(*act, *prev, *cur),
{
    let mut next = *act;
    if cur.right_bumper != prev.right_bumper {
        next.mouth_gesture = if cur.right_bumper { MouthGesture::Open } else { MouthGesture::Closed };
    } else if cur.left_bumper != prev.left_bumper {
        next.mouth_gesture = if cur.left_bumper { MouthGesture::Mid } else { MouthGesture::Closed };
    }
    if cur.right_trigger != prev.right_trigger {
        let openness: u8 = interp(cur.right_trigger, 128, 0);
        next.eye_openness_left = openness;
        next.eye_openness_right = openness;
    } else if cur.left_trigger != prev.left_trigger {
        let openness: u8 = interp(cur.left_trigger, 128, 255);
        next.eye_openness_left = openness;
        next.eye_openness_right = openness;
    }
    if cur.right_stick_x != prev.right_stick_x {
        next.ear_yaw_left = ear_yaw_left(cur.right_stick_x);
        next.ear_yaw_right = ear_yaw_right(cur.right_stick_x);
    }
    if cur.right_stick_y != prev.right_stick_y {
        next.ear_pitch_left = ear_pitch_left(cur.right_stick_y);
        next.ear_pitch_right = ear_pitch_right(cur.right_stick_y);
    }
    next
}

/// The startup update list: one target per actuator, mouth closed and
/// every eye and ear actuator at mid, in the fixed send order mouth,
/// eyes (top-left, bottom-left, top-right, bottom-right), ear yaw
/// (right, left), ear pitch (right, left).
pub open spec fn spec_startup_updates() -> Seq<Update> {
    seq![
        Update { id: ActuatorId::Mouth, pos: MOUTH_CLOSED },
        Update { id: ActuatorId::EyeTopLeft, pos: POS_MID },
        Update { id: ActuatorId::EyeBottomLeft, pos: POS_MID },
        Update { id: ActuatorId::EyeTopRight, pos: POS_MID },
        Update { id: ActuatorId::EyeBottomRight, pos: POS_MID },
        Update { id: ActuatorId::EarTopRight, pos: POS_MID },
        Update { id: ActuatorId::EarTopLeft, pos: POS_MID },
        Update { id: ActuatorId::EarBottomRight, pos: POS_MID },
        Update { id: ActuatorId::EarBottomLeft, pos: POS_MID },
    ]
}

/// Build the one-time startup sequence: exactly nine targets, one per
/// actuator, driving the head to its rest pose.
pub fn startup_updates() -> (ups: Vec<Update>)
    ensures
        ups@ == spec_startup_updates(),
        ups@.len() == 9,
{
    let mut ups: Vec<Update> = Vec::new();
    ups.push(Update { id: ActuatorId::Mouth, pos: MOUTH_CLOSED });
    ups.push(Update { id: ActuatorId::EyeTopLeft, pos: POS_MID });
    ups.push(Update { id: ActuatorId::EyeBottomLeft, pos: POS_MID });
    ups.push(Update { id: ActuatorId::EyeTopRight, pos: POS_MID });
    ups.push(Update { id: ActuatorId::EyeBottomRight, pos: POS_MID });
    ups.push(Update { id: ActuatorId::EarTopRight, pos: POS_MID });
    ups.push(Update { id: ActuatorId::EarTopLeft, pos: POS_MID });
    ups.push(Update { id: ActuatorId::EarBottomRight, pos: POS_MID });
    ups.push(Update { id: ActuatorId::EarBottomLeft, pos: POS_MID });
    proof {
        assert(ups@ =~= spec_startup_updates());
    }
    ups
}

/// An unchanged input snapshot emits no updates: diffing a snapshot
/// against itself yields the empty list.
pub proof fn lemma_no_change_no_updates(s: InputState)
    ensures
        spec_updates(s, s) == Seq::<Update>::empty(),
{
    assert(spec_updates(s, s) =~= Seq::<Update>::empty());
}

/// Bumper handling is edge-triggered: while both bumpers are steady no
/// mouth update is emitted, and each press or release edge emits
/// exactly one, the right bumper's edge taking priority.
pub proof fn lemma_bumper_edge_only(prev: InputState, cur: InputState)
    ensures
        cur.right_bumper == prev.right_bumper && cur.left_bumper == prev.left_bumper
            ==> mouth_updates(prev, cur) == Seq::<Update>::empty(),
        !prev.right_bumper && cur.right_bumper ==> mouth_updates(prev, cur) == seq![
            (Update { id: ActuatorId::Mouth, pos: MOUTH_OPEN }),
        ],
        prev.right_bumper && !cur.right_bumper ==> mouth_updates(prev, cur) == seq![
            (Update { id: ActuatorId::Mouth, pos: MOUTH_CLOSED }),
        ],
        cur.right_bumper == prev.right_bumper && !prev.left_bumper && cur.left_bumper
            ==> mouth_updates(prev, cur) == seq![
            (Update { id: ActuatorId::Mouth, pos: MOUTH_MID }),
        ],
        cur.right_bumper == prev.right_bumper && prev.left_bumper && !cur.left_bumper
            ==> mouth_updates(prev, cur) == seq![
            (Update { id: ActuatorId::Mouth, pos: MOUTH_CLOSED }),
        ],
{
}

/// A press event for a bumper that is already held changes nothing:
/// the input snapshot stays the same and no update at all is emitted,
/// however many such events arrive between the press and the release.
pub proof fn lemma_held_bumper_no_update(s: InputState)
    ensures
        s.right_bumper ==> s.spec_apply(
            InputEvent::ButtonPressed(Button::RightTrigger),
        ) == s && spec_updates(s, s.spec_apply(InputEvent::ButtonPressed(Button::RightTrigger)))
            == Seq::<Update>::empty(),
        s.left_bumper ==> s.spec_apply(
            InputEvent::ButtonPressed(Button::LeftTrigger),
        ) == s && spec_updates(s, s.spec_apply(InputEvent::ButtonPressed(Button::LeftTrigger)))
            == Seq::<Update>::empty(),
{
    lemma_no_change_no_updates(s);
}

} // verus!
