//! Turns key and pointer input into movement and rotation of the camera.

use crate::gpu::raytracer::compute_pipeline::CameraUniform;
use crate::scalar::{Scalar, Vec3, ONE_BITS, ZERO_BITS};
use crate::scene::scene::{clamped_pitch, Camera};
use vstd::prelude::*;

verus! {

/// The keys the controller knows, by their place on the keyboard.
#[derive(Clone, Copy, Debug, PartialEq, Eq, Structural)]
pub enum KeyCode {
    KeyW,
    KeyS,
    KeyA,
    KeyD,
    KeyQ,
    KeyE,
    /// Any other key.
    Other,
}

/// Whether a key or button went down or came up.
#[derive(Clone, Copy, Debug, PartialEq, Eq, Structural)]
pub enum ElementState {
    Pressed,
    Released,
}

#[derive(Clone, Copy, Debug, PartialEq, Eq, Structural)]
pub enum MouseButton {
    Left,
    Right,
    Middle,
    /// Any further button.
    Other,
}

/// Everything the controller remembers between events.
#[derive(Clone, Copy, Debug, PartialEq, Eq, Structural)]
pub struct ControllerState {
    /// Whether the left button is held, which lets the pointer turn the
    /// camera.
    pub is_dragging: bool,
    pub amount_left: Scalar,
    pub amount_right: Scalar,
    pub amount_forward: Scalar,
    pub amount_backward: Scalar,
    pub amount_up: Scalar,
    pub amount_down: Scalar,
    /// Pointer motion since the last update, consumed by it.
    pub rotate_horizontal: Scalar,
    pub rotate_vertical: Scalar,
    pub scroll: Scalar,
    pub speed: Scalar,
    pub sensitivity: Scalar,
}

/// The intent that a key state stands for: one while pressed, else zero.
pub open spec fn level(state: ElementState) -> Scalar {
    match state {
        ElementState::Pressed => Scalar { bits: ONE_BITS },
        ElementState::Released => Scalar { bits: ZERO_BITS },
    }
}

/// Whether a scalar is exactly zero or exactly one.
pub open spec fn is_level(s: Scalar) -> bool {
    s.bits == ZERO_BITS || s.bits == ONE_BITS
}

impl ControllerState {
    /// The state before any input.
    pub open spec fn initial(speed: Scalar, sensitivity: Scalar) -> ControllerState {
        ControllerState {
            is_dragging: false,
            amount_left: Scalar { bits: ZERO_BITS },
            amount_right: Scalar { bits: ZERO_BITS },
            amount_forward: Scalar { bits: ZERO_BITS },
            amount_backward: Scalar { bits: ZERO_BITS },
            amount_up: Scalar { bits: ZERO_BITS },
            amount_down: Scalar { bits: ZERO_BITS },
            rotate_horizontal: Scalar { bits: ZERO_BITS },
            rotate_vertical: Scalar { bits: ZERO_BITS },
            scroll: Scalar { bits: ZERO_BITS },
            speed,
            sensitivity,
        }
    }

    /// Every movement intent is zero or one.
    pub open spec fn intents_are_levels(self) -> bool {
        &&& is_level(self.amount_left)
        &&& is_level(self.amount_right)
        &&& is_level(self.amount_forward)
        &&& is_level(self.amount_backward)
        &&& is_level(self.amount_up)
        &&& is_level(self.amount_down)
    }

    /// The state after a key changed: the key's intent follows the key.
    pub open spec fn after_key(self, key: KeyCode, state: ElementState) -> ControllerState {
        match key {
            KeyCode::KeyW => ControllerState { amount_forward: level(state), ..self },
            KeyCode::KeyS => ControllerState { amount_backward: level(state), ..self },
            KeyCode::KeyA => ControllerState { amount_left: level(state), ..self },
            KeyCode::KeyD => ControllerState { amount_right: level(state), ..self },
            KeyCode::KeyQ => ControllerState { amount_up: level(state), ..self },
            KeyCode::KeyE => ControllerState { amount_down: level(state), ..self },
            KeyCode::Other => self,
        }
    }

    /// The state after the pointer moved: the motion is kept while dragging
    /// and dropped otherwise.
    pub open spec fn after_motion(self, dx: Scalar, dy: Scalar) -> ControllerState {
        if self.is_dragging {
            ControllerState { rotate_horizontal: dx, rotate_vertical: dy, ..self }
        } else {
            self
        }
    }

    /// The state after a button changed: the left button opens and shuts the
    /// drag gate, the others do nothing.
    pub open spec fn after_button(self, button: MouseButton, state: ElementState)
        -> ControllerState {
        match button {
            MouseButton::Left => ControllerState {
                is_dragging: state == ElementState::Pressed,
                ..self
            },
            _ => self,
        }
    }

    /// The state after the wheel turned by `amount`: the amount is stored
    /// with its sign inverted.
    pub open spec fn after_scroll(self, amount: Scalar) -> ControllerState {
        ControllerState { scroll: amount.negated(), ..self }
    }

    /// The state after an update took the pending rotation.
    pub open spec fn rotation_consumed(self) -> ControllerState {
        ControllerState {
            rotate_horizontal: Scalar { bits: ZERO_BITS },
            rotate_vertical: Scalar { bits: ZERO_BITS },
            ..self
        }
    }
}

/// Collects input between frames and hands it to the camera once a frame.
#[derive(Clone, Copy, Debug)]
pub struct CameraController {
    state: ControllerState,
}

impl View for CameraController {
    type V = ControllerState;

    closed spec fn view(&self) -> ControllerState {
        self.state
    }
}

impl CameraController {
    #[verifier::type_invariant]
    spec fn intents_hold(self) -> bool {
        self.state.intents_are_levels()
    }

    /// A controller at rest, with the given speed in units a second and
    /// sensitivity in radians a second for each unit of pointer motion.
    pub fn new(speed: Scalar, sensitivity: Scalar) -> (controller: CameraController)
        ensures
            controller@ == ControllerState::initial(speed, sensitivity),
    {
        CameraController {
            state: ControllerState {
                is_dragging: false,
                amount_left: Scalar { bits: ZERO_BITS },
                amount_right: Scalar { bits: ZERO_BITS },
                amount_forward: Scalar { bits: ZERO_BITS },
                amount_backward: Scalar { bits: ZERO_BITS },
                amount_up: Scalar { bits: ZERO_BITS },
                amount_down: Scalar { bits: ZERO_BITS },
                rotate_horizontal: Scalar { bits: ZERO_BITS },
                rotate_vertical: Scalar { bits: ZERO_BITS },
                scroll: Scalar { bits: ZERO_BITS },
                speed,
                sensitivity,
            },
        }
    }

    /// What the controller holds. Every movement intent in it is zero or one.
    pub fn state(&self) -> (state: ControllerState)
        ensures
            state == self@,
            state.intents_are_levels(),
    {
        proof {
            use_type_invariant(self);
        }
        self.state
    }

    /// Takes a key transition. Returns whether the key is one the controller
    /// knows.
    pub fn process_keyboard(&mut self, key: KeyCode, state: ElementState) -> (recognized: bool)
        ensures
            recognized == (key != KeyCode::Other),
            final(self)@ == old(self)@.after_key(key, state),
    {
        proof {
            use_type_invariant(&*self);
        }
        let amount = match state {
            ElementState::Pressed => Scalar { bits: ONE_BITS },
            ElementState::Released => Scalar { bits: ZERO_BITS },
        };
        match key {
            KeyCode::KeyW => {
                self.state.amount_forward = amount;
                true
            },
            KeyCode::KeyS => {
                self.state.amount_backward = amount;
                true
            },
            KeyCode::KeyA => {
                self.state.amount_left = amount;
                true
            },
            KeyCode::KeyD => {
                self.state.amount_right = amount;
                true
            },
            KeyCode::KeyQ => {
                self.state.amount_up = amount;
                true
            },
            KeyCode::KeyE => {
                self.state.amount_down = amount;
                true
            },
            KeyCode::Other => false,
        }
    }

    /// Takes a pointer motion. Outside a drag it is dropped, not queued.
    pub fn process_mouse(&mut self, mouse_dx: Scalar, mouse_dy: Scalar)
        ensures
            final(self)@ == old(self)@.after_motion(mouse_dx, mouse_dy),
    {
        proof {
            use_type_invariant(&*self);
        }
        if self.state.is_dragging {
            self.state.rotate_horizontal = mouse_dx;
            self.state.rotate_vertical = mouse_dy;
        }
    }

    /// Takes a button transition.
    pub fn process_mouse_button(&mut self, button: MouseButton, state: ElementState)
        ensures
            final(self)@ == old(self)@.after_button(button, state),
    {
        proof {
            use_type_invariant(&*self);
        }
        match button {
            MouseButton::Left => {
                self.state.is_dragging = match state {
                    ElementState::Pressed => true,
                    ElementState::Released => false,
                };
            },
            _ => {},
        }
    }

    /// Takes a turn of the wheel, in pixels; a wheel that reports lines
    /// counts a hundred pixels to the line.
    pub fn process_scroll(&mut self, amount: Scalar)
        ensures
            final(self)@ == old(self)@.after_scroll(amount),
    {
        proof {
            use_type_invariant(&*self);
        }
        self.state.scroll = amount.negate();
    }

    /// Ends a frame's camera update. `position` is where the frame's
    /// movement has taken the camera and `forward` its unit view direction:
    /// the camera moves there, and both are written into `uniform`. Pending
    /// rotation is dropped.
    pub fn update_camera(
        &mut self,
        camera: &mut Camera,
        position: Vec3,
        forward: Vec3,
        uniform: &mut CameraUniform,
    )
        ensures
            *final(camera) == (Camera { position, ..*old(camera) }),
            *final(uniform) == (CameraUniform { position, forward, ..*old(uniform) }),
            final(self)@ == old(self)@.rotation_consumed(),
    {
        proof {
            use_type_invariant(&*self);
        }
        self.state.rotate_horizontal = Scalar { bits: ZERO_BITS };
        self.state.rotate_vertical = Scalar { bits: ZERO_BITS };
        camera.position = position;
        uniform.position = position;
        uniform.forward = forward;
    }

    /// Begins a frame's camera update. `yaw` and `pitch` are the camera's
    /// angles advanced by the pending rotation: the camera takes the yaw as
    /// it is and the pitch held within its limits, and the pending rotation
    /// is consumed.
    pub fn update_camera_rotation(&mut self, camera: &mut Camera, yaw: Scalar, pitch: Scalar)
        ensures
            final(camera).yaw == yaw,
            final(camera).pitch == clamped_pitch(pitch),
            final(camera).position == old(camera).position,
            !pitch.is_nan() ==> final(camera).pitch_in_range(),
            final(self)@ == old(self)@.rotation_consumed(),
    {
        proof {
            use_type_invariant(&*self);
        }
        camera.turn_to(yaw, pitch);
        self.state.rotate_horizontal = Scalar { bits: ZERO_BITS };
        self.state.rotate_vertical = Scalar { bits: ZERO_BITS };
    }
}

/// Pointer motion that arrives while the drag gate is shut leaves no trace:
/// the state is what it was, and so is everything a later update consumes.
/// This holds in particular right after the left button came up.
pub proof fn lemma_motion_outside_drag_is_dropped(s: ControllerState, dx: Scalar, dy: Scalar)
    ensures
        !s.is_dragging ==> s.after_motion(dx, dy) == s,
        s.after_button(MouseButton::Left, ElementState::Released).after_motion(dx, dy)
            == s.after_button(MouseButton::Left, ElementState::Released),
        s.after_button(MouseButton::Left, ElementState::Released).after_motion(
            dx,
            dy,
        ).rotation_consumed() == s.after_button(
            MouseButton::Left,
            ElementState::Released,
        ).rotation_consumed(),
{
}

/// After an update both rotation accumulators are zero, whatever they held,
/// and nothing else in the controller has changed.
pub proof fn lemma_update_clears_rotation(s: ControllerState)
    ensures
        s.rotation_consumed().rotate_horizontal.bits == ZERO_BITS,
        s.rotation_consumed().rotate_vertical.bits == ZERO_BITS,
        s.rotation_consumed() == (ControllerState {
            rotate_horizontal: s.rotation_consumed().rotate_horizontal,
            rotate_vertical: s.rotation_consumed().rotate_vertical,
            ..s
        }),
        s.rotation_consumed().rotation_consumed() == s.rotation_consumed(),
{
}

/// Movement intents start as levels and no input makes them anything else.
pub proof fn lemma_intents_stay_levels(
    s: ControllerState,
    key: KeyCode,
    button: MouseButton,
    state: ElementState,
    a: Scalar,
    b: Scalar,
)
    requires
        s.intents_are_levels(),
    ensures
        ControllerState::initial(a, b).intents_are_levels(),
        s.after_key(key, state).intents_are_levels(),
        s.after_motion(a, b).intents_are_levels(),
        s.after_button(button, state).intents_are_levels(),
        s.after_scroll(a).intents_are_levels(),
        s.rotation_consumed().intents_are_levels(),
{
}

/// Keys move intents whether or not the drag gate is open, and a key touches
/// no intent but its own.
pub proof fn lemma_keys_ignore_drag(s: ControllerState, key: KeyCode, state: ElementState)
    ensures
        s.after_key(key, state).is_dragging == s.is_dragging,
        s.after_key(key, state).rotate_horizontal == s.rotate_horizontal,
        s.after_key(key, state).rotate_vertical == s.rotate_vertical,
        (ControllerState { is_dragging: !s.is_dragging, ..s }).after_key(key, state)
            == (ControllerState { is_dragging: !s.is_dragging, ..s.after_key(key, state) }),
{
}

} // verus!
