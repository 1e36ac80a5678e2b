//! The camera and the scene that owns it.

use crate::controls::cameracontroller::CameraController;
use crate::gpu::raytracer::compute_pipeline::CameraUniform;
use crate::scalar::{lemma_clamped_within, Scalar, Vec3};
use vstd::prelude::*;

verus! {

/// Bit pattern of the largest pitch, 1.49 radians: a little short of a right
/// angle, where the view direction would meet the up vector.
pub const PITCH_MAX_BITS: u32 = 0x3FBE_B852;

/// Bit pattern of the smallest pitch, -1.49 radians.
pub const PITCH_MIN_BITS: u32 = 0xBFBE_B852;

/// Bit patterns of the camera's first position, (0, 0, -80).
pub const START_X_BITS: u32 = 0;

pub const START_Y_BITS: u32 = 0;

pub const START_Z_BITS: u32 = 0xC2A0_0000;

/// Bit patterns of the point the camera first looks at, (0, 10, 9.5).
pub const TARGET_X_BITS: u32 = 0;

pub const TARGET_Y_BITS: u32 = 0x4120_0000;

pub const TARGET_Z_BITS: u32 = 0x4118_0000;

/// The largest pitch.
pub open spec fn pitch_max() -> Scalar {
    Scalar { bits: PITCH_MAX_BITS }
}

/// The smallest pitch.
pub open spec fn pitch_min() -> Scalar {
    Scalar { bits: PITCH_MIN_BITS }
}

/// A pitch held to the range the camera allows. A NaN stays a NaN.
pub open spec fn clamped_pitch(pitch: Scalar) -> Scalar {
    pitch.clamped(pitch_min(), pitch_max())
}

/// Where the camera starts.
pub open spec fn start_position() -> Vec3 {
    Vec3 {
        x: Scalar { bits: START_X_BITS },
        y: Scalar { bits: START_Y_BITS },
        z: Scalar { bits: START_Z_BITS },
    }
}

/// Where a viewer stands and looks: a position, and a direction as yaw and
/// pitch in radians.
#[derive(Clone, Copy, Debug, PartialEq, Eq, Structural)]
pub struct Camera {
    pub position: Vec3,
    pub pitch: Scalar,
    pub yaw: Scalar,
}

impl Camera {
    /// Whether the pitch is a number between the two limits.
    pub open spec fn pitch_in_range(self) -> bool {
        self.pitch.within(pitch_min(), pitch_max())
    }

    /// A camera at `position` that looks along the direction of the given
    /// yaw and pitch. For a unit direction `d` these are the angle of
    /// `(d.x, d.z)` in the ground plane and the arc sine of `d.y`.
    pub fn new(position: Vec3, yaw: Scalar, pitch: Scalar) -> (camera: Camera)
        ensures
            camera == (Camera { position, pitch, yaw }),
    {
        Camera { position, pitch, yaw }
    }

    pub fn has_pitch_in_range(&self) -> (inside: bool)
        ensures
            inside == self.pitch_in_range(),
    {
        self.pitch.is_within(Scalar { bits: PITCH_MIN_BITS }, Scalar { bits: PITCH_MAX_BITS })
    }

    /// Turns the camera to `yaw` and to `pitch` held within the limits.
    pub fn turn_to(&mut self, yaw: Scalar, pitch: Scalar)
        ensures
            final(self).yaw == yaw,
            final(self).pitch == clamped_pitch(pitch),
            final(self).position == old(self).position,
            !pitch.is_nan() ==> final(self).pitch_in_range(),
    {
        proof {
            if !pitch.is_nan() {
                lemma_clamped_within(pitch, pitch_min(), pitch_max());
            }
        }
        self.yaw = yaw;
        self.pitch = pitch.clamp(Scalar { bits: PITCH_MIN_BITS }, Scalar { bits: PITCH_MAX_BITS });
    }
}

/// Whatever number a pitch is integrated to, the clamped pitch lies within
/// the limits; one that already does is kept as it is.
pub proof fn lemma_clamped_pitch_in_range(pitch: Scalar)
    requires
        !pitch.is_nan(),
    ensures
        clamped_pitch(pitch).within(pitch_min(), pitch_max()),
        pitch.within(pitch_min(), pitch_max()) ==> clamped_pitch(pitch) == pitch,
{
    lemma_clamped_within(pitch, pitch_min(), pitch_max());
}

/// What is rendered: for now, only the viewer.
#[derive(Clone, Copy, Debug, PartialEq, Eq, Structural)]
pub struct Scene {
    pub camera: Camera,
}

impl Scene {
    /// Where the camera starts.
    pub fn initial_position() -> (p: Vec3)
        ensures
            p == start_position(),
    {
        Vec3::from_bits(START_X_BITS, START_Y_BITS, START_Z_BITS)
    }

    /// The point the camera first looks at.
    pub fn initial_target() -> (p: Vec3)
        ensures
            p.x.bits == TARGET_X_BITS,
            p.y.bits == TARGET_Y_BITS,
            p.z.bits == TARGET_Z_BITS,
    {
        Vec3::from_bits(TARGET_X_BITS, TARGET_Y_BITS, TARGET_Z_BITS)
    }

    /// The scene with its camera at the starting position. `yaw` and `pitch`
    /// are those of the direction from there to the initial target.
    pub fn new(yaw: Scalar, pitch: Scalar) -> (scene: Scene)
        ensures
            scene.camera == (Camera { position: start_position(), pitch, yaw }),
    {
        Scene { camera: Camera::new(Scene::initial_position(), yaw, pitch) }
    }

    /// Ends a frame's camera update: moves the camera to `position` and
    /// writes `position` and `forward` into `uniform`.
    pub fn compile_camera(
        &mut self,
        controller: &mut CameraController,
        position: Vec3,
        forward: Vec3,
        uniform: &mut CameraUniform,
    )
        ensures
            final(self).camera == (Camera { position, ..old(self).camera }),
            *final(uniform) == (CameraUniform { position, forward, ..*old(uniform) }),
            final(controller)@ == old(controller)@.rotation_consumed(),
    {
        controller.update_camera(&mut self.camera, position, forward, uniform);
    }

    /// Reserved for scenes whose objects change. Does nothing.
    pub fn compile_objects() {
    }

    /// Reserved for scenes that change with time. Changes nothing.
    pub fn update(&mut self)
        ensures
            *final(self) == *old(self),
    {
    }
}

} // verus!
