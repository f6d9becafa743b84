use servo_face::actuator::ActuatorId;
use servo_face::actuator::Update;
use servo_face::controller::Controller;
use servo_face::frame::CommandFrame;
use servo_face::input::Axis;
use servo_face::input::Button;
use servo_face::input::InputEvent;
use servo_face::input::InputState;
use servo_face::input::quantize;
use servo_face::mapper::interp;
use servo_face::mapper::map_updates;
use servo_face::mapper::startup_updates;
use servo_face::state::MouthGesture;

fn upd(id: ActuatorId, pos: u8) -> Update {
    Update { id, pos }
}

#[test]
fn quantize_inside_deadzone_is_zero() {
    assert_eq!(quantize(0), 0);
    assert_eq!(quantize(480), 0);
    assert_eq!(quantize(-480), 0);
    assert_eq!(quantize(123), 0);
}

#[test]
fn quantize_beyond_deadzone_is_sign() {
    assert_eq!(quantize(481), 1);
    assert_eq!(quantize(900), 1);
    assert_eq!(quantize(1000), 1);
    assert_eq!(quantize(-481), -1);
    assert_eq!(quantize(-900), -1);
    assert_eq!(quantize(-1000), -1);
}

#[test]
fn quantize_beyond_full_scale_is_zero() {
    assert_eq!(quantize(1001), 0);
    assert_eq!(quantize(-1001), 0);
    assert_eq!(quantize(i32::MAX), 0);
    assert_eq!(quantize(i32::MIN), 0);
}

#[test]
fn interp_meets_endpoints() {
    assert_eq!(interp(0, 128, 0), 128);
    assert_eq!(interp(1000, 128, 0), 0);
    assert_eq!(interp(0, 128, 255), 128);
    assert_eq!(interp(1000, 128, 255), 255);
}

#[test]
fn interp_midpoint_values() {
    assert_eq!(interp(500, 128, 0), 64);
    assert_eq!(interp(500, 128, 255), 191);
    assert_eq!(interp(250, 128, 0), 96);
}

#[test]
fn interp_stays_in_range_and_monotonic() {
    let mut last_down: u8 = 128;
    let mut last_up: u8 = 128;
    let mut t: u16 = 0;
    while t <= 1000 {
        let down = interp(t, 128, 0);
        let up = interp(t, 128, 255);
        assert!(down <= 128);
        assert!(up >= 128);
        assert!(down <= last_down);
        assert!(up >= last_up);
        last_down = down;
        last_up = up;
        t += 1;
    }
}

#[test]
fn default_input_is_rest() {
    let s = InputState::default();
    assert_eq!(s.right_trigger, 0);
    assert_eq!(s.left_trigger, 0);
    assert!(!s.right_bumper);
    assert!(!s.left_bumper);
    assert_eq!(s.right_stick_x, 0);
    assert_eq!(s.right_stick_y, 0);
}

#[test]
fn unchanged_input_emits_nothing() {
    let s = InputState::default();
    assert_eq!(map_updates(&s, &s), vec![]);
    let mut busy = s;
    busy.right_trigger = 700;
    busy.right_bumper = true;
    busy.right_stick_x = -1;
    assert_eq!(map_updates(&busy, &busy), vec![]);
}

#[test]
fn repeated_event_emits_nothing_second_time() {
    let mut c = Controller::new();
    let ev = InputEvent::ButtonValueChanged(Button::RightTrigger2, 600);
    let first = c.on_event(ev);
    assert_eq!(first.len(), 4);
    let second = c.on_event(ev);
    assert_eq!(second, vec![]);
}

#[test]
fn bumper_press_hold_release_is_edge_only() {
    let mut c = Controller::new();
    let press = c.on_event(InputEvent::ButtonPressed(Button::RightTrigger));
    assert_eq!(press, vec![upd(ActuatorId::Mouth, 255)]);
    let held = c.on_event(InputEvent::ButtonPressed(Button::RightTrigger));
    assert_eq!(held, vec![]);
    let repeated = c.on_event(InputEvent::ButtonRepeated(Button::RightTrigger));
    assert_eq!(repeated, vec![]);
    let release = c.on_event(InputEvent::ButtonReleased(Button::RightTrigger));
    assert_eq!(release, vec![upd(ActuatorId::Mouth, 0)]);
    let idle = c.on_event(InputEvent::ButtonReleased(Button::RightTrigger));
    assert_eq!(idle, vec![]);
}

#[test]
fn left_bumper_drives_mouth_to_mid() {
    let mut c = Controller::new();
    let press = c.on_event(InputEvent::ButtonPressed(Button::LeftTrigger));
    assert_eq!(press, vec![upd(ActuatorId::Mouth, 128)]);
    let release = c.on_event(InputEvent::ButtonReleased(Button::LeftTrigger));
    assert_eq!(release, vec![upd(ActuatorId::Mouth, 0)]);
}

#[test]
fn ignored_buttons_and_lifecycle_events_emit_nothing() {
    let mut c = Controller::new();
    assert_eq!(c.on_event(InputEvent::ButtonPressed(Button::Other)), vec![]);
    assert_eq!(c.on_event(InputEvent::ButtonReleased(Button::Other)), vec![]);
    assert_eq!(c.on_event(InputEvent::AxisChanged(Axis::Other, 900)), vec![]);
    assert_eq!(c.on_event(InputEvent::Connected), vec![]);
    assert_eq!(c.on_event(InputEvent::Disconnected), vec![]);
    assert_eq!(c.on_event(InputEvent::Dropped), vec![]);
}

#[test]
fn startup_sends_nine_frames_to_rest_pose() {
    let ups = startup_updates();
    assert_eq!(
        ups,
        vec![
            upd(ActuatorId::Mouth, 0),
            upd(ActuatorId::EyeTopLeft, 128),
            upd(ActuatorId::EyeBottomLeft, 128),
            upd(ActuatorId::EyeTopRight, 128),
            upd(ActuatorId::EyeBottomRight, 128),
            upd(ActuatorId::EarTopRight, 128),
            upd(ActuatorId::EarTopLeft, 128),
            upd(ActuatorId::EarBottomRight, 128),
            upd(ActuatorId::EarBottomLeft, 128),
        ]
    );
}

#[test]
fn full_right_trigger_emits_four_eye_updates_in_order() {
    let mut c = Controller::new();
    let ups = c.on_event(InputEvent::ButtonValueChanged(Button::RightTrigger2, 1000));
    assert_eq!(
        ups,
        vec![
            upd(ActuatorId::EyeTopLeft, 0),
            upd(ActuatorId::EyeBottomLeft, 255),
            upd(ActuatorId::EyeTopRight, 255),
            upd(ActuatorId::EyeBottomRight, 0),
        ]
    );
}

#[test]
fn full_left_trigger_emits_four_open_eye_updates() {
    let mut c = Controller::new();
    let ups = c.on_event(InputEvent::ButtonValueChanged(Button::LeftTrigger2, 1000));
    assert_eq!(
        ups,
        vec![
            upd(ActuatorId::EyeTopLeft, 255),
            upd(ActuatorId::EyeBottomLeft, 0),
            upd(ActuatorId::EyeTopRight, 0),
            upd(ActuatorId::EyeBottomRight, 255),
        ]
    );
}

#[test]
fn stick_x_to_backward_emits_yaw_only() {
    let mut c = Controller::new();
    let ups = c.on_event(InputEvent::AxisChanged(Axis::RightStickX, 900));
    assert_eq!(
        ups,
        vec![upd(ActuatorId::EarTopRight, 255), upd(ActuatorId::EarTopLeft, 0)]
    );
}

#[test]
fn stick_x_to_forward_uses_mirrored_polarity() {
    let mut c = Controller::new();
    let ups = c.on_event(InputEvent::AxisChanged(Axis::RightStickX, -900));
    assert_eq!(
        ups,
        vec![upd(ActuatorId::EarTopRight, 0), upd(ActuatorId::EarTopLeft, 255)]
    );
}

#[test]
fn stick_y_drives_ear_pitch() {
    let mut c = Controller::new();
    let up = c.on_event(InputEvent::AxisChanged(Axis::RightStickY, 700));
    assert_eq!(
        up,
        vec![upd(ActuatorId::EarBottomRight, 0), upd(ActuatorId::EarBottomLeft, 255)]
    );
    let down = c.on_event(InputEvent::AxisChanged(Axis::RightStickY, -700));
    assert_eq!(
        down,
        vec![upd(ActuatorId::EarBottomRight, 255), upd(ActuatorId::EarBottomLeft, 0)]
    );
}

#[test]
fn stick_back_into_deadzone_returns_ears_to_mid() {
    let mut c = Controller::new();
    c.on_event(InputEvent::AxisChanged(Axis::RightStickX, 900));
    let ups = c.on_event(InputEvent::AxisChanged(Axis::RightStickX, 100));
    assert_eq!(
        ups,
        vec![upd(ActuatorId::EarTopRight, 128), upd(ActuatorId::EarTopLeft, 128)]
    );
}

#[test]
fn stick_within_deadzone_changes_nothing() {
    let mut c = Controller::new();
    assert_eq!(c.on_event(InputEvent::AxisChanged(Axis::RightStickX, 300)), vec![]);
    assert_eq!(c.on_event(InputEvent::AxisChanged(Axis::RightStickX, -470)), vec![]);
}

#[test]
fn frame_layout_is_fixed() {
    let f = CommandFrame::encode(ActuatorId::EarTopRight, 200);
    let b = f.bytes();
    assert_eq!(b.len(), 16);
    assert_eq!(
        b,
        &vec![0xff, 0x04, 0x0c, 0x08, 0x0e, 0x05, 0x08, 0, 0, 0, 0, 0, 0, 9, 200, 0x0a]
    );
}

#[test]
fn frames_differ_only_in_target_bytes() {
    let a = CommandFrame::encode(ActuatorId::Mouth, 0);
    let b = CommandFrame::encode(ActuatorId::EyeBottomRight, 77);
    let ab = a.bytes();
    let bb = b.bytes();
    assert_eq!(ab.len(), 16);
    assert_eq!(bb.len(), 16);
    for i in 0..13 {
        assert_eq!(ab[i], bb[i]);
    }
    assert_eq!(ab[15], bb[15]);
    assert_eq!(ab[13], 0);
    assert_eq!(bb[13], 3);
    assert_eq!(ab[14], 0);
    assert_eq!(bb[14], 77);
}

#[test]
fn actuator_codes_match_the_wire_protocol() {
    assert_eq!(ActuatorId::Mouth.code(), 0);
    assert_eq!(ActuatorId::EyeBottomLeft.code(), 2);
    assert_eq!(ActuatorId::EyeBottomRight.code(), 3);
    assert_eq!(ActuatorId::EyeTopLeft.code(), 4);
    assert_eq!(ActuatorId::EyeTopRight.code(), 5);
    assert_eq!(ActuatorId::EarBottomLeft.code(), 6);
    assert_eq!(ActuatorId::EarBottomRight.code(), 7);
    assert_eq!(ActuatorId::EarTopLeft.code(), 8);
    assert_eq!(ActuatorId::EarTopRight.code(), 9);
}

#[test]
fn committed_state_tracks_the_inputs() {
    let mut c = Controller::new();
    assert_eq!(c.actuators.mouth_gesture, MouthGesture::Closed);
    assert_eq!(c.actuators.eye_openness_left, 128);
    assert_eq!(c.actuators.ear_yaw_right, 128);

    c.on_event(InputEvent::ButtonPressed(Button::RightTrigger));
    assert_eq!(c.actuators.mouth_gesture, MouthGesture::Open);
    c.on_event(InputEvent::ButtonReleased(Button::RightTrigger));
    assert_eq!(c.actuators.mouth_gesture, MouthGesture::Closed);

    c.on_event(InputEvent::ButtonValueChanged(Button::RightTrigger2, 1000));
    assert_eq!(c.actuators.eye_openness_left, 0);
    assert_eq!(c.actuators.eye_openness_right, 0);

    c.on_event(InputEvent::AxisChanged(Axis::RightStickX, 900));
    assert_eq!(c.actuators.ear_yaw_right, 255);
    assert_eq!(c.actuators.ear_yaw_left, 0);
    assert_eq!(c.actuators.ear_pitch_right, 128);

    assert!(c.input.right_bumper == false);
    assert_eq!(c.input.right_trigger, 1000);
    assert_eq!(c.input.right_stick_x, 1);
}

#[test]
fn trigger_priority_is_mutually_exclusive_per_event() {
    // A single event can only change one trigger, so only that
    // trigger's branch fires even while the other sits off rest.
    let mut c = Controller::new();
    c.on_event(InputEvent::ButtonValueChanged(Button::LeftTrigger2, 400));
    let ups = c.on_event(InputEvent::ButtonValueChanged(Button::RightTrigger2, 1000));
    assert_eq!(ups.len(), 4);
    assert_eq!(ups[0], upd(ActuatorId::EyeTopLeft, 0));
}
