use bevy::input::keyboard::KeyCode;
use bevy::input::mouse::MouseButton;
use bevy::input::ButtonInput;
use orbit_camera::input::{
    axis, pan_direction, sample_pan_keys, track_rotation, PanAxes, PanKeys, RotationState,
};

fn keys_down(codes: &[KeyCode]) -> ButtonInput<KeyCode> {
    let mut keys = ButtonInput::default();
    for code in codes {
        keys.press(*code);
    }
    keys
}

fn axes(x: i8, y: i8, z: i8) -> PanAxes {
    PanAxes { x, y, z }
}

#[test]
fn rotation_starts_off() {
    assert!(!RotationState::default().rotating);
}

#[test]
fn rotation_follows_edges() {
    let mut state = RotationState::default();
    state.on_edges(false, false);
    assert!(!state.rotating);
    state.on_edges(true, false);
    assert!(state.rotating);
    state.on_edges(false, false);
    assert!(state.rotating);
    state.on_edges(true, false);
    assert!(state.rotating);
    state.on_edges(false, true);
    assert!(!state.rotating);
    state.on_edges(false, true);
    assert!(!state.rotating);
}

#[test]
fn release_beats_press_within_a_frame() {
    let mut state = RotationState { rotating: false };
    state.on_edges(true, true);
    assert!(!state.rotating);
    let mut state = RotationState { rotating: true };
    state.on_edges(true, true);
    assert!(!state.rotating);
}

#[test]
fn rotation_tracks_the_left_button() {
    let mut buttons: ButtonInput<MouseButton> = ButtonInput::default();
    let mut state = RotationState::default();

    track_rotation(&buttons, &mut state);
    assert!(!state.rotating);

    buttons.press(MouseButton::Left);
    track_rotation(&buttons, &mut state);
    assert!(state.rotating);

    // Next frame: the button is still held, but there is no new edge.
    buttons.clear();
    assert!(buttons.pressed(MouseButton::Left));
    track_rotation(&buttons, &mut state);
    assert!(state.rotating);

    buttons.release(MouseButton::Left);
    track_rotation(&buttons, &mut state);
    assert!(!state.rotating);

    buttons.clear();
    track_rotation(&buttons, &mut state);
    assert!(!state.rotating);
}

#[test]
fn rotation_ignores_other_buttons() {
    let mut buttons: ButtonInput<MouseButton> = ButtonInput::default();
    let mut state = RotationState::default();
    buttons.press(MouseButton::Right);
    buttons.press(MouseButton::Middle);
    track_rotation(&buttons, &mut state);
    assert!(!state.rotating);

    let mut state = RotationState { rotating: true };
    buttons.release(MouseButton::Right);
    track_rotation(&buttons, &mut state);
    assert!(state.rotating);
}

#[test]
fn click_within_one_frame_leaves_rotation_off() {
    let mut buttons: ButtonInput<MouseButton> = ButtonInput::default();
    buttons.press(MouseButton::Left);
    buttons.release(MouseButton::Left);
    let mut state = RotationState::default();
    track_rotation(&buttons, &mut state);
    assert!(!state.rotating);
}

#[test]
fn axis_values() {
    assert_eq!(axis(false, false), 0);
    assert_eq!(axis(true, false), 1);
    assert_eq!(axis(false, true), -1);
    assert_eq!(axis(true, true), 0);
}

#[test]
fn pushes_add_up_to_axes() {
    let none = PanKeys { up: false, down: false, left: false, right: false };
    assert_eq!(none.axes(), axes(0, 0, 0));
    assert_eq!(PanKeys { up: true, ..none }.axes(), axes(0, 1, 0));
    assert_eq!(PanKeys { down: true, ..none }.axes(), axes(0, -1, 0));
    assert_eq!(PanKeys { left: true, ..none }.axes(), axes(-1, 0, 0));
    assert_eq!(PanKeys { right: true, ..none }.axes(), axes(1, 0, 0));
    assert_eq!(PanKeys { up: true, right: true, ..none }.axes(), axes(1, 1, 0));
    assert_eq!(PanKeys { down: true, left: true, ..none }.axes(), axes(-1, -1, 0));
    assert_eq!(PanKeys { up: true, down: true, ..none }.axes(), axes(0, 0, 0));
    assert_eq!(PanKeys { left: true, right: true, up: true, ..none }.axes(), axes(0, 1, 0));
    let all = PanKeys { up: true, down: true, left: true, right: true };
    assert_eq!(all.axes(), axes(0, 0, 0));
}

#[test]
fn moving_means_some_axis_is_set() {
    assert!(!axes(0, 0, 0).is_moving());
    assert!(axes(1, 0, 0).is_moving());
    assert!(axes(0, -1, 0).is_moving());
    assert!(axes(0, 0, 1).is_moving());
    assert!(axes(-1, 1, 0).is_moving());
}

#[test]
fn no_key_no_push() {
    let keys = keys_down(&[]);
    let sample = sample_pan_keys(&keys);
    assert_eq!(sample, PanKeys { up: false, down: false, left: false, right: false });
    assert_eq!(pan_direction(&keys), axes(0, 0, 0));
    assert!(!pan_direction(&keys).is_moving());
}

#[test]
fn each_pan_key_pushes_its_way() {
    assert_eq!(pan_direction(&keys_down(&[KeyCode::KeyW])), axes(0, 1, 0));
    assert_eq!(pan_direction(&keys_down(&[KeyCode::ArrowUp])), axes(0, 1, 0));
    assert_eq!(pan_direction(&keys_down(&[KeyCode::KeyS])), axes(0, -1, 0));
    assert_eq!(pan_direction(&keys_down(&[KeyCode::ArrowDown])), axes(0, -1, 0));
    assert_eq!(pan_direction(&keys_down(&[KeyCode::KeyA])), axes(-1, 0, 0));
    assert_eq!(pan_direction(&keys_down(&[KeyCode::ArrowLeft])), axes(-1, 0, 0));
    assert_eq!(pan_direction(&keys_down(&[KeyCode::KeyD])), axes(1, 0, 0));
    assert_eq!(pan_direction(&keys_down(&[KeyCode::AltRight])), axes(1, 0, 0));
}

#[test]
fn both_keys_of_a_push_count_once() {
    assert_eq!(pan_direction(&keys_down(&[KeyCode::KeyW, KeyCode::ArrowUp])), axes(0, 1, 0));
    assert_eq!(pan_direction(&keys_down(&[KeyCode::KeyD, KeyCode::AltRight])), axes(1, 0, 0));
}

#[test]
fn opposed_keys_cancel() {
    assert_eq!(pan_direction(&keys_down(&[KeyCode::KeyW, KeyCode::KeyS])), axes(0, 0, 0));
    assert_eq!(pan_direction(&keys_down(&[KeyCode::ArrowLeft, KeyCode::KeyD])), axes(0, 0, 0));
    assert_eq!(
        pan_direction(&keys_down(&[KeyCode::KeyA, KeyCode::KeyD, KeyCode::ArrowDown])),
        axes(0, -1, 0)
    );
}

#[test]
fn other_keys_do_not_pan() {
    let keys = keys_down(&[KeyCode::ArrowRight, KeyCode::AltLeft, KeyCode::Space, KeyCode::KeyQ]);
    assert_eq!(pan_direction(&keys), axes(0, 0, 0));
}

#[test]
fn released_keys_stop_pushing() {
    let mut keys = keys_down(&[KeyCode::KeyW, KeyCode::KeyD]);
    assert_eq!(pan_direction(&keys), axes(1, 1, 0));
    keys.release(KeyCode::KeyW);
    assert_eq!(pan_direction(&keys), axes(1, 0, 0));
    keys.clear();
    assert_eq!(pan_direction(&keys), axes(1, 0, 0));
    keys.release(KeyCode::KeyD);
    assert_eq!(pan_direction(&keys), axes(0, 0, 0));
}

#[test]
fn sample_reports_each_push() {
    let sample = sample_pan_keys(&keys_down(&[KeyCode::ArrowUp, KeyCode::KeyA, KeyCode::KeyS]));
    assert_eq!(sample, PanKeys { up: true, down: true, left: true, right: false });
}
