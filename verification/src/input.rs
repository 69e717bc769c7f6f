//! Reduction of a frame's button and key state to what the camera needs:
//! whether pointer motion steers it, and along which axes the keys push its
//! pivot.

use bevy::input::keyboard::KeyCode;
use bevy::input::mouse::MouseButton;
use bevy::input::ButtonInput;
use std::hash::Hash;
use vstd::prelude::*;

verus! {

#[verifier::external_type_specification]
#[verifier::external_body]
#[verifier::reject_recursive_types(T)]
pub struct ExButtonInput<T: Copy + Eq + Hash + Send + Sync + 'static>(ButtonInput<T>);

#[verifier::external_type_specification]
#[verifier::external_body]
pub struct ExMouseButton(MouseButton);

#[verifier::external_type_specification]
#[verifier::external_body]
pub struct ExKeyCode(KeyCode);

/// Whether `buttons` records a press of the left button during this frame.
pub uninterp spec fn left_just_pressed(buttons: ButtonInput<MouseButton>) -> bool;

/// Whether `buttons` records a release of the left button during this frame.
pub uninterp spec fn left_just_released(buttons: ButtonInput<MouseButton>) -> bool;

/// Whether `keys` holds `key` as pressed.
pub uninterp spec fn key_pressed(keys: ButtonInput<KeyCode>, key: PanKey) -> bool;

/// `ButtonInput::just_pressed` of bevy, asked of `MouseButton::Left`. The
/// answer is a membership test in the collection and depends on nothing
/// else; no more is claimed of it.
#[verifier::external_body]
fn just_pressed_left(buttons: &ButtonInput<MouseButton>) -> (edge: bool)
    ensures
        edge == left_just_pressed(*buttons),
{
    buttons.just_pressed(MouseButton::Left)
}

/// `ButtonInput::just_released` of bevy, asked of `MouseButton::Left`. The
/// answer is a membership test in the collection and depends on nothing
/// else; no more is claimed of it.
#[verifier::external_body]
fn just_released_left(buttons: &ButtonInput<MouseButton>) -> (edge: bool)
    ensures
        edge == left_just_released(*buttons),
{
    buttons.just_released(MouseButton::Left)
}

/// `ButtonInput::pressed` of bevy, asked of the key code that `key` stands
/// for. The answer is a membership test in the collection and depends on
/// nothing but the collection and the key; no more is claimed of it.
#[verifier::external_body]
fn pressed(keys: &ButtonInput<KeyCode>, key: PanKey) -> (down: bool)
    ensures
        down == key_pressed(*keys, key),
{
    keys.pressed(match key {
        PanKey::KeyW => KeyCode::KeyW,
        PanKey::ArrowUp => KeyCode::ArrowUp,
        PanKey::KeyS => KeyCode::KeyS,
        PanKey::ArrowDown => KeyCode::ArrowDown,
        PanKey::KeyA => KeyCode::KeyA,
        PanKey::ArrowLeft => KeyCode::ArrowLeft,
        PanKey::KeyD => KeyCode::KeyD,
        PanKey::AltRight => KeyCode::AltRight,
    })
}

/// Whether pointer motion currently steers the camera: true from the frame
/// in which the left button goes down to the frame in which it comes up.
#[derive(Clone, Copy, Debug, PartialEq, Eq, Structural)]
pub struct RotationState {
    pub rotating: bool,
}

impl RotationState {
    /// The state after a frame in which the button went down (`pressed`),
    /// came up (`released`), both or neither. A release has the last word;
    /// without an edge the state stays.
    pub open spec fn after_edges(self, pressed: bool, released: bool) -> RotationState {
        RotationState {
            rotating: if released {
                false
            } else if pressed {
                true
            } else {
                self.rotating
            },
        }
    }

    /// Takes a frame's edges of the left button.
    pub fn on_edges(&mut self, pressed: bool, released: bool)
        ensures
            *final(self) == old(self).after_edges(pressed, released),
    {
        if pressed {
            self.rotating = true;
        }
        if released {
            self.rotating = false;
        }
    }
}

impl Default for RotationState {
    /// Nothing steers the camera until the button goes down.
    fn default() -> (state: RotationState)
        ensures
            !state.rotating,
    {
        RotationState { rotating: false }
    }
}

/// Reads the left button's edges out of `buttons` and lets `state` follow
/// them.
pub fn track_rotation(buttons: &ButtonInput<MouseButton>, state: &mut RotationState)
    ensures
        *final(state) == old(state).after_edges(
            left_just_pressed(*buttons),
            left_just_released(*buttons),
        ),
{
    let pressed = just_pressed_left(buttons);
    let released = just_released_left(buttons);
    state.on_edges(pressed, released);
}

/// The keys that pan the camera.
#[derive(Clone, Copy, Debug, PartialEq, Eq, Structural)]
pub enum PanKey {
    KeyW,
    ArrowUp,
    KeyS,
    ArrowDown,
    KeyA,
    ArrowLeft,
    KeyD,
    AltRight,
}

/// The four pushes that the pan keys can give, each true while one of its
/// two keys is down.
#[derive(Clone, Copy, Debug, PartialEq, Eq, Structural)]
pub struct PanKeys {
    pub up: bool,
    pub down: bool,
    pub left: bool,
    pub right: bool,
}

/// A direction on the integer grid: each component is -1, 0 or 1. The
/// pivot moves along `x` to the camera's right, along `y` upwards and along
/// `z` forwards.
#[derive(Clone, Copy, Debug, PartialEq, Eq, Structural)]
pub struct PanAxes {
    pub x: i8,
    pub y: i8,
    pub z: i8,
}

/// What two opposed pushes add up to.
pub open spec fn spec_axis(plus: bool, minus: bool) -> int {
    (if plus { 1int } else { 0int }) - (if minus { 1int } else { 0int })
}

/// What two opposed pushes add up to.
pub fn axis(plus: bool, minus: bool) -> (a: i8)
    ensures
        a == spec_axis(plus, minus),
        -1 <= a <= 1,
{
    let p: i8 = if plus { 1 } else { 0 };
    let m: i8 = if minus { 1 } else { 0 };
    p - m
}

impl PanKeys {
    /// The pushes that `keys` gives: W or the up arrow pushes up, S or the
    /// down arrow down, A or the left arrow left, D or the right Alt key
    /// right.
    pub open spec fn sampled(keys: ButtonInput<KeyCode>) -> PanKeys {
        PanKeys {
            up: key_pressed(keys, PanKey::KeyW) || key_pressed(keys, PanKey::ArrowUp),
            down: key_pressed(keys, PanKey::KeyS) || key_pressed(keys, PanKey::ArrowDown),
            left: key_pressed(keys, PanKey::KeyA) || key_pressed(keys, PanKey::ArrowLeft),
            right: key_pressed(keys, PanKey::KeyD) || key_pressed(keys, PanKey::AltRight),
        }
    }

    /// No push at all.
    pub open spec fn none(self) -> bool {
        !self.up && !self.down && !self.left && !self.right
    }

    /// The direction that the pushes add up to; opposed pushes cancel.
    pub open spec fn spec_axes(self) -> PanAxes {
        PanAxes {
            x: spec_axis(self.right, self.left) as i8,
            y: spec_axis(self.up, self.down) as i8,
            z: 0,
        }
    }

    /// The direction that the pushes add up to; opposed pushes cancel.
    #[verifier::when_used_as_spec(spec_axes)]
    pub fn axes(self) -> (a: PanAxes)
        ensures
            a == self.spec_axes(),
            a.on_grid(),
    {
        PanAxes { x: axis(self.right, self.left), y: axis(self.up, self.down), z: 0 }
    }
}

impl PanAxes {
    /// Each component is -1, 0 or 1.
    pub open spec fn on_grid(self) -> bool {
        -1 <= self.x <= 1 && -1 <= self.y <= 1 && -1 <= self.z <= 1
    }

    /// The direction has a length: some component is not zero. Only such a
    /// direction can be scaled to unit length.
    pub open spec fn spec_is_moving(self) -> bool {
        self.x != 0 || self.y != 0 || self.z != 0
    }

    /// Whether some component is not zero.
    #[verifier::when_used_as_spec(spec_is_moving)]
    pub fn is_moving(self) -> (moving: bool)
        ensures
            moving == self.spec_is_moving(),
    {
        self.x != 0 || self.y != 0 || self.z != 0
    }
}

/// Samples the pan keys out of `keys`.
pub fn sample_pan_keys(keys: &ButtonInput<KeyCode>) -> (sample: PanKeys)
    ensures
        sample == PanKeys::sampled(*keys),
{
    PanKeys {
        up: pressed(keys, PanKey::KeyW) || pressed(keys, PanKey::ArrowUp),
        down: pressed(keys, PanKey::KeyS) || pressed(keys, PanKey::ArrowDown),
        left: pressed(keys, PanKey::KeyA) || pressed(keys, PanKey::ArrowLeft),
        right: pressed(keys, PanKey::KeyD) || pressed(keys, PanKey::AltRight),
    }
}

/// The direction in which the keys held in `keys` push the pivot.
pub fn pan_direction(keys: &ButtonInput<KeyCode>) -> (a: PanAxes)
    ensures
        a == PanKeys::sampled(*keys).spec_axes(),
        a.on_grid(),
{
    sample_pan_keys(keys).axes()
}

/// Without an edge the state stays as it is, whether the button is held or
/// not: the state follows transitions, not levels.
pub proof fn lemma_rotation_follows_edges_only(state: RotationState)
    ensures
        state.after_edges(false, false) == state,
{
}

/// A press starts the rotation, a release ends it, and where a frame holds
/// both, the release decides.
pub proof fn lemma_rotation_edges(state: RotationState, pressed: bool)
    ensures
        state.after_edges(true, false).rotating,
        !state.after_edges(pressed, true).rotating,
{
}

/// With no pan key down the direction is the zero vector, and opposed
/// pushes cancel each other.
pub proof fn lemma_no_keys_no_direction(keys: PanKeys)
    ensures
        keys.none() ==> !keys.spec_axes().spec_is_moving(),
        keys.spec_axes().on_grid(),
        keys.spec_axes().spec_is_moving() <==> (keys.up != keys.down || keys.left != keys.right),
{
}

} // verus!
