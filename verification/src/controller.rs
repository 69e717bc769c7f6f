//! The orbit state of one camera and the rules by which input changes it.
//!
//! The camera circles a pivot: `yaw` and `pitch` say from where it looks,
//! `distance` how far away it stands, `fov` how wide it sees, and `target`
//! is the pivot itself. All of these are single-precision numbers held by
//! their bits. The rules here decide whether a frame's input takes effect
//! and saturate what is stored; the sums and products that lead to a new
//! angle are worked out by the caller, on the hardware's numbers, and come
//! in as part of the input.

use crate::input::PanKeys;
use crate::input::RotationState;
use crate::single::Single;
use vstd::prelude::*;

verus! {

/// The steepest pitch, upwards or downwards: a tenth of a degree short of a
/// right angle, in radians.
pub const PITCH_LIMIT: u32 = 0x3fc8_d6aa;

/// The factor, one tenth, by which pointer motion is scaled on top of the
/// sensitivity before it is taken off the angles.
pub const LOOK_SCALE: u32 = 0x3dcc_cccd;

/// The speed of the pivot under the pan keys, five units a second.
pub const PAN_SPEED: u32 = 0x40a0_0000;

/// Default distance from the pivot: ten.
pub const DEFAULT_DISTANCE: u32 = 0x4120_0000;

/// Default pointer sensitivity: one tenth.
pub const DEFAULT_MOUSE_SENSITIVITY: u32 = 0x3dcc_cccd;

/// Default scroll sensitivity: one.
pub const DEFAULT_SCROLL_SENSITIVITY: u32 = 0x3f80_0000;

/// Default nearest distance: two.
pub const DEFAULT_MIN_DISTANCE: u32 = 0x4000_0000;

/// Default farthest distance: twenty.
pub const DEFAULT_MAX_DISTANCE: u32 = 0x41a0_0000;

/// Default field of view: sixty degrees.
pub const DEFAULT_FOV: u32 = 0x4270_0000;

/// Default narrowest field of view: twenty degrees.
pub const DEFAULT_MIN_FOV: u32 = 0x41a0_0000;

/// Default widest field of view: a hundred and twenty degrees.
pub const DEFAULT_MAX_FOV: u32 = 0x42f0_0000;

/// Two numbers: a pointer motion across the screen.
#[derive(Clone, Copy, Debug, PartialEq, Eq, Structural)]
pub struct Pair {
    pub x: Single,
    pub y: Single,
}

/// Three numbers: a point in the world.
#[derive(Clone, Copy, Debug, PartialEq, Eq, Structural)]
pub struct Triple {
    pub x: Single,
    pub y: Single,
    pub z: Single,
}

/// What the scroll wheel changes.
#[derive(Clone, Copy, Debug, PartialEq, Eq, Structural)]
pub enum ZoomMode {
    /// The wheel narrows or widens the field of view; the camera stays
    /// where it is.
    FieldOfView,
    /// The wheel moves the camera towards the pivot or away from it.
    Distance,
}

/// One frame's pointer motion, with the angles it asks for.
#[derive(Clone, Copy, Debug, PartialEq, Eq, Structural)]
pub struct Look {
    /// Whether pointer motion steers the camera in this frame.
    pub rotating: bool,
    /// The motion, summed over the frame.
    pub delta: Pair,
    /// The yaw that the motion asks for: the present yaw less `delta.x`
    /// times the pointer sensitivity times `LOOK_SCALE`.
    pub yaw: Single,
    /// The pitch that the motion asks for, not yet saturated: the present
    /// pitch less `delta.y` times the pointer sensitivity times
    /// `LOOK_SCALE`.
    pub pitch: Single,
}

/// One frame's turns of the scroll wheel, with the value they ask for.
#[derive(Clone, Copy, Debug, PartialEq, Eq, Structural)]
pub struct Scroll {
    /// The turns, summed over the frame.
    pub delta: Single,
    /// The value that the turns ask for, not yet saturated: the present
    /// field of view, or in `ZoomMode::Distance` the present distance, less
    /// `delta` times the scroll sensitivity.
    pub wanted: Single,
}

/// The orbit state of a camera, as plain data.
#[derive(Clone, Copy, Debug, PartialEq, Eq, Structural)]
pub struct Rig {
    /// Elevation of the camera over the pivot's horizon, in radians.
    pub pitch: Single,
    /// Heading of the camera around the pivot, in radians.
    pub yaw: Single,
    /// Distance of the camera from the pivot.
    pub distance: Single,
    /// How far a unit of pointer motion turns the camera.
    pub mouse_sensitivity: Single,
    /// How far a turn of the wheel zooms.
    pub scroll_sensitivity: Single,
    /// Nearest distance.
    pub min_distance: Single,
    /// Farthest distance.
    pub max_distance: Single,
    /// Field of view, in degrees.
    pub fov: Single,
    /// Narrowest field of view.
    pub min_fov: Single,
    /// Widest field of view.
    pub max_fov: Single,
    /// The pivot that the camera circles and looks at.
    pub target: Triple,
    /// What the scroll wheel changes.
    pub zoom_mode: ZoomMode,
}

impl Look {
    /// The motion takes effect: the button is held and the pointer moved.
    /// A motion counts as none only where both of its components are zero.
    pub open spec fn spec_applies(self) -> bool {
        self.rotating && !(self.delta.x.spec_is_zero() && self.delta.y.spec_is_zero())
    }

    /// Whether the motion takes effect.
    #[verifier::when_used_as_spec(spec_applies)]
    pub fn applies(self) -> (a: bool)
        ensures
            a == self.spec_applies(),
    {
        self.rotating && !(self.delta.x.is_zero() && self.delta.y.is_zero())
    }
}

impl Scroll {
    /// The turns take effect: they do not sum to zero.
    pub open spec fn spec_applies(self) -> bool {
        !self.delta.spec_is_zero()
    }

    /// Whether the turns take effect.
    #[verifier::when_used_as_spec(spec_applies)]
    pub fn applies(self) -> (a: bool)
        ensures
            a == self.spec_applies(),
    {
        !self.delta.is_zero()
    }
}

impl Rig {
    /// The lowest pitch.
    pub open spec fn pitch_floor() -> Single {
        Single { bits: (PITCH_LIMIT + crate::single::SIGN_BIT) as u32 }
    }

    /// The highest pitch.
    pub open spec fn pitch_ceiling() -> Single {
        Single { bits: PITCH_LIMIT }
    }

    /// The state that a camera starts from: level, ten units out from a
    /// pivot at the origin, with a field of view of sixty degrees that the
    /// wheel can take from twenty to a hundred and twenty.
    pub open spec fn initial() -> Rig {
        Rig {
            pitch: Single { bits: 0 },
            yaw: Single { bits: 0 },
            distance: Single { bits: DEFAULT_DISTANCE },
            mouse_sensitivity: Single { bits: DEFAULT_MOUSE_SENSITIVITY },
            scroll_sensitivity: Single { bits: DEFAULT_SCROLL_SENSITIVITY },
            min_distance: Single { bits: DEFAULT_MIN_DISTANCE },
            max_distance: Single { bits: DEFAULT_MAX_DISTANCE },
            fov: Single { bits: DEFAULT_FOV },
            min_fov: Single { bits: DEFAULT_MIN_FOV },
            max_fov: Single { bits: DEFAULT_MAX_FOV },
            target: Triple {
                x: Single { bits: 0 },
                y: Single { bits: 0 },
                z: Single { bits: 0 },
            },
            zoom_mode: ZoomMode::FieldOfView,
        }
    }

    /// Both pairs of limits are numbers in order.
    pub open spec fn limits_in_order(self) -> bool {
        &&& Single::bracket(self.min_distance, self.max_distance)
        &&& Single::bracket(self.min_fov, self.max_fov)
    }

    /// Pitch, field of view and distance each lie within their limits.
    pub open spec fn within_limits(self) -> bool {
        &&& self.pitch.within(Rig::pitch_floor(), Rig::pitch_ceiling())
        &&& self.fov.within(self.min_fov, self.max_fov)
        &&& self.distance.within(self.min_distance, self.max_distance)
    }

    /// What every controller's state satisfies: the limits are in order,
    /// and each of pitch, field of view and distance lies within its
    /// limits unless it is a NaN. A NaN gets in only where the caller hands
    /// one in; saturation leaves it alone.
    pub open spec fn sound(self) -> bool {
        &&& self.limits_in_order()
        &&& (self.pitch.spec_is_nan() || self.pitch.within(
            Rig::pitch_floor(),
            Rig::pitch_ceiling(),
        ))
        &&& (self.fov.spec_is_nan() || self.fov.within(self.min_fov, self.max_fov))
        &&& (self.distance.spec_is_nan() || self.distance.within(
            self.min_distance,
            self.max_distance,
        ))
    }

    /// The state after a frame's pointer motion. Where the motion takes
    /// effect the yaw is the one asked for and the pitch the one asked for,
    /// saturated; where it does not, nothing changes.
    pub open spec fn after_look(self, look: Look) -> Rig {
        if look.spec_applies() {
            Rig {
                yaw: look.yaw,
                pitch: look.pitch.spec_clamp(Rig::pitch_floor(), Rig::pitch_ceiling()),
                ..self
            }
        } else {
            self
        }
    }

    /// The state after a frame's turns of the wheel. Where they take effect
    /// the value asked for is stored, saturated between its limits: as the
    /// field of view, or in `ZoomMode::Distance` as the distance. Where
    /// they do not, nothing changes.
    pub open spec fn after_scroll(self, scroll: Scroll) -> Rig {
        if !scroll.spec_applies() {
            self
        } else {
            match self.zoom_mode {
                ZoomMode::FieldOfView => Rig {
                    fov: scroll.wanted.spec_clamp(self.min_fov, self.max_fov),
                    ..self
                },
                ZoomMode::Distance => Rig {
                    distance: scroll.wanted.spec_clamp(self.min_distance, self.max_distance),
                    ..self
                },
            }
        }
    }

    /// The state with the pivot at `target`. The pivot is free: nothing
    /// holds it back.
    pub open spec fn after_pan(self, target: Triple) -> Rig {
        Rig { target, ..self }
    }

    /// The state with the wheel set to change `mode`.
    pub open spec fn with_zoom_mode(self, mode: ZoomMode) -> Rig {
        Rig { zoom_mode: mode, ..self }
    }

    /// The state after a run of frames' pointer motions, first to last.
    pub open spec fn after_looks(self, looks: Seq<Look>) -> Rig
        decreases looks.len(),
    {
        if looks.len() == 0 {
            self
        } else {
            self.after_looks(looks.drop_last()).after_look(looks.last())
        }
    }

    /// The state after a run of frames' wheel turns, first to last.
    pub open spec fn after_scrolls(self, scrolls: Seq<Scroll>) -> Rig
        decreases scrolls.len(),
    {
        if scrolls.len() == 0 {
            self
        } else {
            self.after_scrolls(scrolls.drop_last()).after_scroll(scrolls.last())
        }
    }
}

/// The orbit state of one camera, kept sound: see `Rig::sound`.
#[derive(Clone, Copy, Debug)]
pub struct CameraController {
    rig: Rig,
}

impl View for CameraController {
    type V = Rig;

    closed spec fn view(&self) -> Rig {
        self.rig
    }
}

impl CameraController {
    #[verifier::type_invariant]
    spec fn kept_sound(self) -> bool {
        self.rig.sound()
    }

    /// The state as plain data.
    pub fn rig(&self) -> (rig: Rig)
        ensures
            rig == self@,
            rig.sound(),
    {
        proof {
            use_type_invariant(self);
        }
        self.rig
    }

    /// Takes a frame's pointer motion: see `Rig::after_look`. Returns
    /// whether the motion took effect, which is when the camera's
    /// transform has to follow.
    pub fn look(&mut self, look: Look) -> (applied: bool)
        ensures
            applied == look.spec_applies(),
            final(self)@ == old(self)@.after_look(look),
            final(self)@.sound(),
            applied && !look.pitch.spec_is_nan() ==> final(self)@.pitch.within(
                Rig::pitch_floor(),
                Rig::pitch_ceiling(),
            ),
    {
        proof {
            use_type_invariant(&*self);
        }
        if !look.applies() {
            return false;
        }
        let floor = Single::from_bits(PITCH_LIMIT).negated();
        let ceiling = Single::from_bits(PITCH_LIMIT);
        let pitch = look.pitch.clamp(floor, ceiling);
        self.rig = Rig { yaw: look.yaw, pitch, ..self.rig };
        true
    }

    /// Takes a frame's turns of the wheel: see `Rig::after_scroll`.
    /// Returns whether they took effect, which is when the projection and
    /// the camera's transform have to follow.
    pub fn scroll(&mut self, scroll: Scroll) -> (applied: bool)
        ensures
            applied == scroll.spec_applies(),
            final(self)@ == old(self)@.after_scroll(scroll),
            final(self)@.sound(),
            applied && !scroll.wanted.spec_is_nan() && old(self)@.zoom_mode == ZoomMode::FieldOfView
                ==> final(self)@.fov.within(old(self)@.min_fov, old(self)@.max_fov),
            applied && !scroll.wanted.spec_is_nan() && old(self)@.zoom_mode == ZoomMode::Distance
                ==> final(self)@.distance.within(old(self)@.min_distance, old(self)@.max_distance),
    {
        proof {
            use_type_invariant(&*self);
        }
        if !scroll.applies() {
            return false;
        }
        match self.rig.zoom_mode {
            ZoomMode::FieldOfView => {
                let fov = scroll.wanted.clamp(self.rig.min_fov, self.rig.max_fov);
                self.rig = Rig { fov, ..self.rig };
            },
            ZoomMode::Distance => {
                let distance = scroll.wanted.clamp(self.rig.min_distance, self.rig.max_distance);
                self.rig = Rig { distance, ..self.rig };
            },
        }
        true
    }

    /// Moves the pivot to `target`.
    pub fn pan(&mut self, target: Triple)
        ensures
            final(self)@ == old(self)@.after_pan(target),
            final(self)@.sound(),
    {
        proof {
            use_type_invariant(&*self);
        }
        self.rig = Rig { target, ..self.rig };
    }

    /// Sets what the scroll wheel changes.
    pub fn set_zoom_mode(&mut self, mode: ZoomMode)
        ensures
            final(self)@ == old(self)@.with_zoom_mode(mode),
            final(self)@.sound(),
    {
        proof {
            use_type_invariant(&*self);
        }
        self.rig = Rig { zoom_mode: mode, ..self.rig };
    }
}

impl Default for CameraController {
    /// A controller in the state `Rig::initial`.
    fn default() -> (controller: CameraController)
        ensures
            controller@ == Rig::initial(),
            controller@.sound(),
            controller@.within_limits(),
    {
        CameraController {
            rig: Rig {
                pitch: Single::from_bits(0),
                yaw: Single::from_bits(0),
                distance: Single::from_bits(DEFAULT_DISTANCE),
                mouse_sensitivity: Single::from_bits(DEFAULT_MOUSE_SENSITIVITY),
                scroll_sensitivity: Single::from_bits(DEFAULT_SCROLL_SENSITIVITY),
                min_distance: Single::from_bits(DEFAULT_MIN_DISTANCE),
                max_distance: Single::from_bits(DEFAULT_MAX_DISTANCE),
                fov: Single::from_bits(DEFAULT_FOV),
                min_fov: Single::from_bits(DEFAULT_MIN_FOV),
                max_fov: Single::from_bits(DEFAULT_MAX_FOV),
                target: Triple {
                    x: Single::from_bits(0),
                    y: Single::from_bits(0),
                    z: Single::from_bits(0),
                },
                zoom_mode: ZoomMode::FieldOfView,
            },
        }
    }
}

/// Every rule keeps a sound state sound, whatever comes in.
pub proof fn lemma_rules_keep_sound(
    rig: Rig,
    look: Look,
    scroll: Scroll,
    target: Triple,
    mode: ZoomMode,
)
    requires
        rig.sound(),
    ensures
        rig.after_look(look).sound(),
        rig.after_scroll(scroll).sound(),
        rig.after_pan(target).sound(),
        rig.with_zoom_mode(mode).sound(),
{
}

/// Pointer motion never takes the pitch past the vertical: after any run
/// of motions that ask for a number, a pitch that was within its limits
/// still is. (A motion that asks for a NaN gets the NaN stored.)
pub proof fn lemma_pitch_stays_within(rig: Rig, looks: Seq<Look>)
    requires
        rig.pitch.within(Rig::pitch_floor(), Rig::pitch_ceiling()),
        forall|i: int| 0 <= i < looks.len() ==> !(#[trigger] looks[i]).pitch.spec_is_nan(),
    ensures
        rig.after_looks(looks).pitch.within(Rig::pitch_floor(), Rig::pitch_ceiling()),
    decreases looks.len(),
{
    if looks.len() > 0 {
        let before = looks.drop_last();
        assert forall|i: int| 0 <= i < before.len() implies !(#[trigger] before[i]).pitch.spec_is_nan() by {
            assert(before[i] == looks[i]);
        }
        lemma_pitch_stays_within(rig, before);
        assert(!looks[looks.len() - 1].pitch.spec_is_nan());
    }
}

/// The wheel never takes the field of view, nor the distance, past its
/// limits: after any run of turns that ask for a number the limits are the
/// same as before, and a value that was within them still is. (Turns that
/// ask for a NaN get the NaN stored.)
pub proof fn lemma_zoom_stays_within(rig: Rig, scrolls: Seq<Scroll>)
    requires
        rig.limits_in_order(),
        rig.fov.within(rig.min_fov, rig.max_fov),
        rig.distance.within(rig.min_distance, rig.max_distance),
        forall|i: int| 0 <= i < scrolls.len() ==> !(#[trigger] scrolls[i]).wanted.spec_is_nan(),
    ensures
        rig.after_scrolls(scrolls).min_fov == rig.min_fov,
        rig.after_scrolls(scrolls).max_fov == rig.max_fov,
        rig.after_scrolls(scrolls).min_distance == rig.min_distance,
        rig.after_scrolls(scrolls).max_distance == rig.max_distance,
        rig.after_scrolls(scrolls).fov.within(rig.min_fov, rig.max_fov),
        rig.after_scrolls(scrolls).distance.within(rig.min_distance, rig.max_distance),
    decreases scrolls.len(),
{
    if scrolls.len() > 0 {
        let before = scrolls.drop_last();
        assert forall|i: int| 0 <= i < before.len() implies !(#[trigger] before[i]).wanted.spec_is_nan() by {
            assert(before[i] == scrolls[i]);
        }
        lemma_zoom_stays_within(rig, before);
        assert(!scrolls[scrolls.len() - 1].wanted.spec_is_nan());
    }
}

/// Pointer motion turns the camera if and only if the button is held and
/// the pointer moved; otherwise the state is left untouched, whatever
/// angles came along.
pub proof fn lemma_look_needs_button_and_motion(rig: Rig, look: Look)
    ensures
        !look.rotating ==> rig.after_look(look) == rig,
        look.delta.x.spec_is_zero() && look.delta.y.spec_is_zero() ==> rig.after_look(look) == rig,
        look.spec_applies() ==> rig.after_look(look).yaw == look.yaw,
        rig.after_look(look).distance == rig.distance,
        rig.after_look(look).fov == rig.fov,
        rig.after_look(look).target == rig.target,
{
}

/// A frame without input changes nothing. With no edge of the button the
/// rotation state stays; with the button up, the pointer at rest and the
/// wheel still, yaw, pitch, distance, field of view and pivot are what
/// they were, whatever values came along as asked for; and with no pan key
/// down the direction in which the pivot is pushed is the zero vector.
pub proof fn lemma_idle_frame_changes_nothing(
    rig: Rig,
    rotation: RotationState,
    look: Look,
    scroll: Scroll,
    keys: PanKeys,
)
    requires
        !rotation.rotating,
        look.rotating == rotation.after_edges(false, false).rotating,
        look.delta.x.spec_is_zero(),
        look.delta.y.spec_is_zero(),
        scroll.delta.spec_is_zero(),
        keys.none(),
    ensures
        rotation.after_edges(false, false) == rotation,
        rig.after_look(look) == rig,
        rig.after_scroll(scroll) == rig,
        rig.after_look(look).after_scroll(scroll) == rig,
        !keys.spec_axes().spec_is_moving(),
{
}

} // verus!
