//! The compute side of the renderer: the records the kernel reads, the
//! buffers and bindings it is given, and the host's copy of the camera.

use crate::gpu::layout::{
    decode_words, decoded, encode_words, encoded, lemma_decode_encoded, lemma_words_at,
};
use crate::gpu::raytracer::materials::{
    colored_glass, dark_mirror, emerald_crystal, glass_material, metal_material, pearlescent,
    polished_gold, Material,
};
use crate::clock::{since_unix_epoch, wall_clock_now, whole_millis};
use crate::controls::cameracontroller::CameraController;
use crate::scalar::{Scalar, Vec3};
use crate::scene::scene::{start_position, Camera, Scene};
use vstd::prelude::*;

verus! {

/// Width of the traced image in texels. A multiple of the workgroup size.
pub const RESOLUTION_X: u32 = 2400;

/// Height of the traced image in texels. A multiple of the workgroup size.
pub const RESOLUTION_Y: u32 = 1600;

/// Bytes per texel of the traced image: three channels padded to four words.
pub const PIXEL_SIZE: u64 = 16;

/// Edge of the square of texels that one workgroup of the kernel covers.
/// It has to be the size that the kernel declares for its workgroups.
pub const WORKGROUP_SIZE: u32 = 8;

/// Bytes in an encoded camera uniform.
pub const CAMERA_UNIFORM_SIZE: usize = 48;

/// Bytes in an encoded sphere.
pub const SPHERE_SIZE: usize = 48;

/// Bytes in the encoded light.
pub const STAR_SIZE: usize = 32;

/// Bytes in the encoded environment dimensions.
pub const ENV_DIMENSIONS_SIZE: usize = 8;

/// Index of the aspect ratio among the words of a camera uniform.
pub const ASPECT_RATIO_WORD: usize = 3;

/// The camera as the kernel reads it. Each vector is followed by one scalar,
/// so that every vector starts on a 16-byte boundary.
#[derive(Clone, Copy, Debug, PartialEq, Eq, Structural)]
pub struct CameraUniform {
    pub position: Vec3,
    pub aspect_ratio: Scalar,
    pub up: Vec3,
    pub fov_y: Scalar,
    pub forward: Vec3,
    pub _padding2: Scalar,
}

impl CameraUniform {
    /// The twelve words of the uniform, in the kernel's order.
    pub open spec fn words(self) -> Seq<u32> {
        seq![
            self.position.x.bits,
            self.position.y.bits,
            self.position.z.bits,
            self.aspect_ratio.bits,
            self.up.x.bits,
            self.up.y.bits,
            self.up.z.bits,
            self.fov_y.bits,
            self.forward.x.bits,
            self.forward.y.bits,
            self.forward.z.bits,
            self._padding2.bits,
        ]
    }

    /// The uniform that twelve words spell.
    pub open spec fn of_words(w: Seq<u32>) -> CameraUniform
        recommends
            w.len() == 12,
    {
        CameraUniform {
            position: Vec3 {
                x: Scalar { bits: w[0] },
                y: Scalar { bits: w[1] },
                z: Scalar { bits: w[2] },
            },
            aspect_ratio: Scalar { bits: w[3] },
            up: Vec3 {
                x: Scalar { bits: w[4] },
                y: Scalar { bits: w[5] },
                z: Scalar { bits: w[6] },
            },
            fov_y: Scalar { bits: w[7] },
            forward: Vec3 {
                x: Scalar { bits: w[8] },
                y: Scalar { bits: w[9] },
                z: Scalar { bits: w[10] },
            },
            _padding2: Scalar { bits: w[11] },
        }
    }

    /// The uniform with another aspect ratio.
    pub open spec fn resized(self, aspect_ratio: Scalar) -> CameraUniform {
        CameraUniform { aspect_ratio, ..self }
    }

    /// A uniform for a camera at `position`. `forward` and `up` are unit
    /// vectors: the caller normalises them.
    pub fn new(
        position: Vec3,
        forward: Vec3,
        up: Vec3,
        fov_y: Scalar,
        aspect_ratio: Scalar,
    ) -> (u: CameraUniform)
        ensures
            u.position == position,
            u.forward == forward,
            u.up == up,
            u.fov_y == fov_y,
            u.aspect_ratio == aspect_ratio,
            u._padding2.bits == 0,
    {
        CameraUniform { position, aspect_ratio, up, fov_y, forward, _padding2: Scalar { bits: 0 } }
    }

    /// Takes the aspect ratio of a resized surface. Nothing else changes.
    pub fn resize(&mut self, aspect_ratio: Scalar)
        ensures
            *final(self) == old(self).resized(aspect_ratio),
    {
        self.aspect_ratio = aspect_ratio;
    }

    /// The uniform as the bytes of the camera buffer.
    pub fn to_bytes(&self) -> (bytes: Vec<u8>)
        ensures
            bytes@ == encoded(self.words()),
            bytes.len() == CAMERA_UNIFORM_SIZE,
    {
        let mut words: Vec<u32> = Vec::new();
        words.push(self.position.x.bits);
        words.push(self.position.y.bits);
        words.push(self.position.z.bits);
        words.push(self.aspect_ratio.bits);
        words.push(self.up.x.bits);
        words.push(self.up.y.bits);
        words.push(self.up.z.bits);
        words.push(self.fov_y.bits);
        words.push(self.forward.x.bits);
        words.push(self.forward.y.bits);
        words.push(self.forward.z.bits);
        words.push(self._padding2.bits);
        assert(words@ =~= self.words());
        encode_words(&words)
    }

    /// Reads a uniform back from the bytes of a camera buffer: `None` unless
    /// the buffer has exactly the size of a uniform.
    pub fn from_bytes(bytes: &Vec<u8>) -> (u: Option<CameraUniform>)
        ensures
            u == if bytes.len() == CAMERA_UNIFORM_SIZE {
                Some(CameraUniform::of_words(decoded(bytes@)))
            } else {
                None
            },
    {
        if bytes.len() != CAMERA_UNIFORM_SIZE {
            return None;
        }
        let w = decode_words(bytes);
        Some(
            CameraUniform {
                position: Vec3 {
                    x: Scalar { bits: w[0] },
                    y: Scalar { bits: w[1] },
                    z: Scalar { bits: w[2] },
                },
                aspect_ratio: Scalar { bits: w[3] },
                up: Vec3 {
                    x: Scalar { bits: w[4] },
                    y: Scalar { bits: w[5] },
                    z: Scalar { bits: w[6] },
                },
                fov_y: Scalar { bits: w[7] },
                forward: Vec3 {
                    x: Scalar { bits: w[8] },
                    y: Scalar { bits: w[9] },
                    z: Scalar { bits: w[10] },
                },
                _padding2: Scalar { bits: w[11] },
            },
        )
    }
}

/// A uniform read back from its own encoding is the same uniform: every
/// field comes back bit for bit.
pub proof fn lemma_camera_uniform_round_trip(u: CameraUniform)
    ensures
        encoded(u.words()).len() == CAMERA_UNIFORM_SIZE,
        CameraUniform::of_words(decoded(encoded(u.words()))) == u,
{
    lemma_decode_encoded(u.words());
}

/// Where the kernel finds each field of the uniform: the position in bytes 0
/// to 11, the aspect ratio in 12 to 15, the up vector in 16 to 27, the field
/// of view in 28 to 31, the view direction in 32 to 43 and the padding in 44
/// to 47. Each vector starts on a multiple of sixteen.
pub proof fn lemma_camera_uniform_layout(u: CameraUniform)
    ensures
        encoded(u.words()).len() == CAMERA_UNIFORM_SIZE,
        encoded(u.words()).subrange(0, 12) == encoded(u.position.words()),
        encoded(u.words()).subrange(12, 16) == encoded(seq![u.aspect_ratio.bits]),
        encoded(u.words()).subrange(16, 28) == encoded(u.up.words()),
        encoded(u.words()).subrange(28, 32) == encoded(seq![u.fov_y.bits]),
        encoded(u.words()).subrange(32, 44) == encoded(u.forward.words()),
        encoded(u.words()).subrange(44, 48) == encoded(seq![u._padding2.bits]),
{
    let w = u.words();
    lemma_words_at(w, 0, 3);
    lemma_words_at(w, 3, 4);
    lemma_words_at(w, 4, 7);
    lemma_words_at(w, 7, 8);
    lemma_words_at(w, 8, 11);
    lemma_words_at(w, 11, 12);
    assert(w.subrange(0, 3) =~= u.position.words());
    assert(w.subrange(3, 4) =~= seq![u.aspect_ratio.bits]);
    assert(w.subrange(4, 7) =~= u.up.words());
    assert(w.subrange(7, 8) =~= seq![u.fov_y.bits]);
    assert(w.subrange(8, 11) =~= u.forward.words());
    assert(w.subrange(11, 12) =~= seq![u._padding2.bits]);
}

/// A resize rewrites the aspect ratio and nothing else: the other fields keep
/// their values, and of the encoded uniform only bytes 12 to 15 can change.
pub proof fn lemma_resize_changes_aspect_ratio_only(u: CameraUniform, aspect_ratio: Scalar)
    ensures
        u.resized(aspect_ratio).aspect_ratio == aspect_ratio,
        u.resized(aspect_ratio).position == u.position,
        u.resized(aspect_ratio).up == u.up,
        u.resized(aspect_ratio).fov_y == u.fov_y,
        u.resized(aspect_ratio).forward == u.forward,
        u.resized(aspect_ratio)._padding2 == u._padding2,
        u.resized(aspect_ratio).words() == u.words().update(
            ASPECT_RATIO_WORD as int,
            aspect_ratio.bits,
        ),
        forall|i: int|
            0 <= i < CAMERA_UNIFORM_SIZE && !(12 <= i < 16) ==> encoded(
                u.resized(aspect_ratio).words(),
            )[i] == encoded(u.words())[i],
{
    assert(u.resized(aspect_ratio).words() =~= u.words().update(
        ASPECT_RATIO_WORD as int,
        aspect_ratio.bits,
    ));
}

/// A sphere of the scene: centre, radius, then its material, twelve words.
#[derive(Clone, Copy, Debug, PartialEq, Eq, Structural)]
pub struct Sphere {
    pub center: Vec3,
    pub radius: Scalar,
    pub material: Material,
}

/// The light of the scene: colour, intensity, position and radius, eight
/// words.
#[derive(Clone, Copy, Debug, PartialEq, Eq, Structural)]
pub struct Star {
    pub color: Vec3,
    pub intensity: Scalar,
    pub position: Vec3,
    pub radius: Scalar,
}

/// Size in pixels of the environment map.
#[derive(Clone, Copy, Debug, PartialEq, Eq, Structural)]
pub struct EnvDimensions {
    pub width: u32,
    pub height: u32,
}

impl Sphere {
    pub open spec fn words(self) -> Seq<u32> {
        seq![self.center.x.bits, self.center.y.bits, self.center.z.bits, self.radius.bits]
            + self.material.words()
    }

    /// The sphere with the given centre and radius, by bit pattern.
    pub open spec fn of_bits(x: u32, y: u32, z: u32, radius: u32, material: Material) -> Sphere {
        Sphere {
            center: Vec3 { x: Scalar { bits: x }, y: Scalar { bits: y }, z: Scalar { bits: z } },
            radius: Scalar { bits: radius },
            material,
        }
    }

    pub fn from_bits(x: u32, y: u32, z: u32, radius: u32, material: Material) -> (s: Sphere)
        ensures
            s == Sphere::of_bits(x, y, z, radius, material),
    {
        Sphere {
            center: Vec3 { x: Scalar { bits: x }, y: Scalar { bits: y }, z: Scalar { bits: z } },
            radius: Scalar { bits: radius },
            material,
        }
    }

    /// Appends the sphere's words to `out`.
    pub fn push_words(&self, out: &mut Vec<u32>)
        ensures
            final(out)@ == old(out)@ + self.words(),
    {
        out.push(self.center.x.bits);
        out.push(self.center.y.bits);
        out.push(self.center.z.bits);
        out.push(self.radius.bits);
        self.material.push_words(out);
        assert(out@ =~= old(out)@ + self.words());
    }

    /// The sphere as the bytes of one element of the sphere buffer.
    pub fn to_bytes(&self) -> (bytes: Vec<u8>)
        ensures
            bytes@ == encoded(self.words()),
            bytes.len() == SPHERE_SIZE,
    {
        let mut words: Vec<u32> = Vec::new();
        self.push_words(&mut words);
        assert(words@ =~= self.words());
        encode_words(&words)
    }
}

impl Star {
    pub open spec fn words(self) -> Seq<u32> {
        seq![
            self.color.x.bits,
            self.color.y.bits,
            self.color.z.bits,
            self.intensity.bits,
            self.position.x.bits,
            self.position.y.bits,
            self.position.z.bits,
            self.radius.bits,
        ]
    }

    /// The light as the bytes of the light buffer.
    pub fn to_bytes(&self) -> (bytes: Vec<u8>)
        ensures
            bytes@ == encoded(self.words()),
            bytes.len() == STAR_SIZE,
    {
        let mut words: Vec<u32> = Vec::new();
        words.push(self.color.x.bits);
        words.push(self.color.y.bits);
        words.push(self.color.z.bits);
        words.push(self.intensity.bits);
        words.push(self.position.x.bits);
        words.push(self.position.y.bits);
        words.push(self.position.z.bits);
        words.push(self.radius.bits);
        assert(words@ =~= self.words());
        encode_words(&words)
    }
}

impl EnvDimensions {
    pub open spec fn words(self) -> Seq<u32> {
        seq![self.width, self.height]
    }

    /// Bytes of an image of this size with four one-byte channels a pixel.
    pub open spec fn pixel_bytes(self) -> int {
        4 * (self.width as int) * (self.height as int)
    }

    /// The dimensions as the bytes of their uniform buffer.
    pub fn to_bytes(&self) -> (bytes: Vec<u8>)
        ensures
            bytes@ == encoded(self.words()),
            bytes.len() == ENV_DIMENSIONS_SIZE,
    {
        let mut words: Vec<u32> = Vec::new();
        words.push(self.width);
        words.push(self.height);
        assert(words@ =~= self.words());
        encode_words(&words)
    }

    /// Whether a pixel buffer of `len` bytes holds exactly one image of this
    /// size.
    pub fn holds(&self, len: usize) -> (fits: bool)
        ensures
            fits == (len == self.pixel_bytes()),
    {
        let w: u64 = self.width as u64;
        let h: u64 = self.height as u64;
        assert(w * h <= 0xFFFF_FFFF * 0xFFFF_FFFF) by (nonlinear_arith)
            requires
                w <= 0xFFFF_FFFF,
                h <= 0xFFFF_FFFF,
        ;
        let pixels: u64 = w * h;
        assert(4 * (pixels as int) == 4 * (self.width as int) * (self.height as int))
            by (nonlinear_arith)
            requires
                pixels == (self.width as int) * (self.height as int),
        ;
        let bytes: u128 = 4 * (pixels as u128);
        len as u128 == bytes
    }
}

/// The words of a run of spheres, one sphere after another.
pub open spec fn spheres_words(spheres: Seq<Sphere>) -> Seq<u32> {
    Seq::new(12 * spheres.len(), |i: int| spheres[i / 12].words()[i % 12])
}

/// The spheres as the bytes of the sphere buffer.
pub fn encode_spheres(spheres: &Vec<Sphere>) -> (bytes: Vec<u8>)
    ensures
        bytes@ == encoded(spheres_words(spheres@)),
        bytes.len() == SPHERE_SIZE * spheres.len(),
{
    let mut words: Vec<u32> = Vec::new();
    let mut i: usize = 0;
    assert(words@ =~= spheres_words(spheres@.take(0)));
    while i < spheres.len()
        invariant
            0 <= i <= spheres.len(),
            words@ == spheres_words(spheres@.take(i as int)),
        decreases spheres.len() - i,
    {
        spheres[i].push_words(&mut words);
        assert(words@ =~= spheres_words(spheres@.take(i as int + 1)));
        i += 1;
    }
    assert(spheres@.take(i as int) =~= spheres@);
    encode_words(&words)
}

/// A sphere is its centre in bytes 0 to 11, its radius in 12 to 15 and its
/// material, whole and without a gap, in the 32 bytes that follow.
pub proof fn lemma_sphere_layout(s: Sphere)
    ensures
        encoded(s.words()).len() == SPHERE_SIZE,
        encoded(s.words()).subrange(0, 12) == encoded(s.center.words()),
        encoded(s.words()).subrange(12, 16) == encoded(seq![s.radius.bits]),
        encoded(s.words()).subrange(16, 48) == encoded(s.material.words()),
{
    let w = s.words();
    lemma_words_at(w, 0, 3);
    lemma_words_at(w, 3, 4);
    lemma_words_at(w, 4, 12);
    assert(w.subrange(0, 3) =~= s.center.words());
    assert(w.subrange(3, 4) =~= seq![s.radius.bits]);
    assert(w.subrange(4, 12) =~= s.material.words());
}

/// The light is its colour in bytes 0 to 11, its intensity in 12 to 15, its
/// position in 16 to 27 and its radius in 28 to 31.
pub proof fn lemma_star_layout(s: Star)
    ensures
        encoded(s.words()).len() == STAR_SIZE,
        encoded(s.words()).subrange(0, 12) == encoded(s.color.words()),
        encoded(s.words()).subrange(12, 16) == encoded(seq![s.intensity.bits]),
        encoded(s.words()).subrange(16, 28) == encoded(s.position.words()),
        encoded(s.words()).subrange(28, 32) == encoded(seq![s.radius.bits]),
{
    let w = s.words();
    lemma_words_at(w, 0, 3);
    lemma_words_at(w, 3, 4);
    lemma_words_at(w, 4, 7);
    lemma_words_at(w, 7, 8);
    assert(w.subrange(0, 3) =~= s.color.words());
    assert(w.subrange(3, 4) =~= seq![s.intensity.bits]);
    assert(w.subrange(4, 7) =~= s.position.words());
    assert(w.subrange(7, 8) =~= seq![s.radius.bits]);
}

/// The sphere buffer holds its spheres back to back: sphere `i` occupies the
/// 48 bytes from byte `48 i`.
pub proof fn lemma_sphere_at(spheres: Seq<Sphere>, i: int)
    requires
        0 <= i < spheres.len(),
    ensures
        encoded(spheres_words(spheres)).len() == SPHERE_SIZE * spheres.len(),
        encoded(spheres_words(spheres)).subrange(48 * i, 48 * i + 48) == encoded(
            spheres[i].words(),
        ),
{
    let w = spheres_words(spheres);
    lemma_words_at(w, 12 * i, 12 * i + 12);
    assert(w.subrange(12 * i, 12 * i + 12) =~= spheres[i].words());
}

/// The seven spheres of the scene: two large ones of glass and metal, and a
/// row of five small ones between them. All but the first are centred at a
/// height of negative zero.
pub open spec fn scene_spheres_spec() -> Seq<Sphere> {
    seq![
        Sphere::of_bits(0, 0, 0, 0x41F0_0000, glass_material()),
        Sphere::of_bits(0x42C8_0000, 0x8000_0000, 0, 0x41F0_0000, metal_material()),
        Sphere::of_bits(0x4248_0000, 0x8000_0000, 0xC270_0000, 0x4120_0000, colored_glass()),
        Sphere::of_bits(0x4248_0000, 0x8000_0000, 0xC1F0_0000, 0x4120_0000, dark_mirror()),
        Sphere::of_bits(0x4248_0000, 0x8000_0000, 0, 0x4120_0000, emerald_crystal()),
        Sphere::of_bits(0x4248_0000, 0x8000_0000, 0x41F0_0000, 0x4120_0000, polished_gold()),
        Sphere::of_bits(0x4248_0000, 0x8000_0000, 0x4270_0000, 0x4120_0000, pearlescent()),
    ]
}

pub fn scene_spheres() -> (spheres: Vec<Sphere>)
    ensures
        spheres@ == scene_spheres_spec(),
{
    let mut spheres: Vec<Sphere> = Vec::new();
    spheres.push(Sphere::from_bits(0, 0, 0, 0x41F0_0000, glass_material()));
    spheres.push(Sphere::from_bits(0x42C8_0000, 0x8000_0000, 0, 0x41F0_0000, metal_material()));
    spheres.push(
        Sphere::from_bits(0x4248_0000, 0x8000_0000, 0xC270_0000, 0x4120_0000, colored_glass()),
    );
    spheres.push(
        Sphere::from_bits(0x4248_0000, 0x8000_0000, 0xC1F0_0000, 0x4120_0000, dark_mirror()),
    );
    spheres.push(Sphere::from_bits(0x4248_0000, 0x8000_0000, 0, 0x4120_0000, emerald_crystal()));
    spheres.push(
        Sphere::from_bits(0x4248_0000, 0x8000_0000, 0x41F0_0000, 0x4120_0000, polished_gold()),
    );
    spheres.push(
        Sphere::from_bits(0x4248_0000, 0x8000_0000, 0x4270_0000, 0x4120_0000, pearlescent()),
    );
    assert(spheres@ =~= scene_spheres_spec());
    spheres
}

/// The light: orange, of intensity one, a point far out at
/// (1352, 82, -1470).
pub open spec fn scene_light_spec() -> Star {
    Star {
        color: Vec3 {
            x: Scalar { bits: 0x3F80_0000 },
            y: Scalar { bits: 0x3F0C_CCCD },
            z: Scalar { bits: 0 },
        },
        intensity: Scalar { bits: 0x3F80_0000 },
        position: Vec3 {
            x: Scalar { bits: 0x44A9_0000 },
            y: Scalar { bits: 0x42A4_0000 },
            z: Scalar { bits: 0xC4B7_C000 },
        },
        radius: Scalar { bits: 0 },
    }
}

#[verifier::when_used_as_spec(scene_light_spec)]
pub fn scene_light() -> (light: Star)
    ensures
        light == scene_light_spec(),
{
    Star {
        color: Vec3::from_bits(0x3F80_0000, 0x3F0C_CCCD, 0),
        intensity: Scalar { bits: 0x3F80_0000 },
        position: Vec3::from_bits(0x44A9_0000, 0x42A4_0000, 0xC4B7_C000),
        radius: Scalar { bits: 0 },
    }
}

/// Bit pattern of the vertical field of view, 1.05 radians.
pub const FOV_Y_BITS: u32 = 0x3F86_6666;

/// Number of bind groups the kernel is given.
pub const BIND_GROUPS: u32 = 4;

/// Bytes in the seed buffer.
pub const SEED_SIZE: usize = 4;

/// The buffers of the compute side.
#[derive(Clone, Copy, Debug, PartialEq, Eq, Structural)]
pub enum BufferId {
    /// The traced image: written by the kernel, read by the presentation
    /// pass, never by the host.
    Output,
    Spheres,
    Light,
    /// The seed of the kernel's sampler, rewritten every frame.
    Seed,
    /// The camera uniform, rewritten every frame and on resize.
    Camera,
    EnvironmentPixels,
    EnvironmentDimensions,
}

/// How a pipeline stage sees a bound buffer.
#[derive(Clone, Copy, Debug, PartialEq, Eq, Structural)]
pub enum BindingKind {
    StorageReadWrite,
    StorageReadOnly,
    Uniform,
}

/// The stages that can see a binding.
#[derive(Clone, Copy, Debug, PartialEq, Eq, Structural)]
pub struct Stages {
    pub compute: bool,
    pub fragment: bool,
}

/// One slot of a bind group: where it is, who sees it, and what is in it.
#[derive(Clone, Copy, Debug, PartialEq, Eq, Structural)]
pub struct Binding {
    pub group: u32,
    pub binding: u32,
    pub visibility: Stages,
    pub kind: BindingKind,
    pub buffer: BufferId,
}

/// What a buffer may be used for.
#[derive(Clone, Copy, Debug, PartialEq, Eq, Structural)]
pub struct Usage {
    pub storage: bool,
    pub uniform: bool,
    pub copy_dst: bool,
    pub copy_src: bool,
}

/// One run of the kernel: the bind groups to set, numbered from zero, and
/// the number of workgroups along each axis. A workgroup covers
/// `WORKGROUP_SIZE` texels along x and along y.
#[derive(Clone, Copy, Debug, PartialEq, Eq, Structural)]
pub struct Dispatch {
    pub bind_groups: u32,
    pub x: u32,
    pub y: u32,
    pub z: u32,
}

/// The buffer writes that end a frame.
pub struct FrameUpload {
    /// The new content of the camera buffer, from its start.
    pub camera: Vec<u8>,
    /// The new content of the seed buffer.
    pub seed: Vec<u8>,
}

/// The bindings of the kernel: the traced image in group 0; spheres, light
/// and seed in group 1; the camera in group 2; the environment map and its
/// dimensions in group 3.
pub open spec fn compute_bindings() -> Seq<Binding> {
    seq![
        Binding {
            group: 0,
            binding: 0,
            visibility: Stages { compute: true, fragment: true },
            kind: BindingKind::StorageReadWrite,
            buffer: BufferId::Output,
        },
        Binding {
            group: 1,
            binding: 0,
            visibility: Stages { compute: true, fragment: false },
            kind: BindingKind::StorageReadOnly,
            buffer: BufferId::Spheres,
        },
        Binding {
            group: 1,
            binding: 1,
            visibility: Stages { compute: true, fragment: false },
            kind: BindingKind::StorageReadOnly,
            buffer: BufferId::Light,
        },
        Binding {
            group: 1,
            binding: 2,
            visibility: Stages { compute: true, fragment: false },
            kind: BindingKind::Uniform,
            buffer: BufferId::Seed,
        },
        Binding {
            group: 2,
            binding: 0,
            visibility: Stages { compute: true, fragment: false },
            kind: BindingKind::Uniform,
            buffer: BufferId::Camera,
        },
        Binding {
            group: 3,
            binding: 0,
            visibility: Stages { compute: true, fragment: true },
            kind: BindingKind::StorageReadOnly,
            buffer: BufferId::EnvironmentPixels,
        },
        Binding {
            group: 3,
            binding: 1,
            visibility: Stages { compute: true, fragment: true },
            kind: BindingKind::Uniform,
            buffer: BufferId::EnvironmentDimensions,
        },
    ]
}

/// What each buffer is created for. The host can write into every one of
/// them; only the traced image can also be copied out.
pub open spec fn usage_of(buffer: BufferId) -> Usage {
    match buffer {
        BufferId::Output => Usage { storage: true, uniform: false, copy_dst: true, copy_src: true },
        BufferId::Spheres | BufferId::Light | BufferId::EnvironmentPixels => Usage {
            storage: true,
            uniform: false,
            copy_dst: true,
            copy_src: false,
        },
        BufferId::Seed | BufferId::Camera | BufferId::EnvironmentDimensions => Usage {
            storage: false,
            uniform: true,
            copy_dst: true,
            copy_src: false,
        },
    }
}

/// Whether a buffer with usage `usage` may be bound as `kind`.
pub open spec fn usage_allows(usage: Usage, kind: BindingKind) -> bool {
    match kind {
        BindingKind::StorageReadWrite | BindingKind::StorageReadOnly => usage.storage,
        BindingKind::Uniform => usage.uniform,
    }
}

/// Bytes of the traced image.
pub open spec fn output_size() -> int {
    RESOLUTION_X as int * RESOLUTION_Y as int * PIXEL_SIZE as int
}

/// Whether the table has the first slot of group `g`.
pub open spec fn has_group(table: Seq<Binding>, g: int) -> bool {
    exists|i: int| 0 <= i < table.len() && (#[trigger] table[i]).group == g && table[i].binding == 0
}

/// A table of bindings is well formed when its groups are numbered below
/// `groups`, its slots come in order of group and then binding, each group
/// numbers its slots from zero without a gap, and every buffer is created
/// with the usage its slot asks for.
pub open spec fn bindings_well_formed(table: Seq<Binding>, groups: int) -> bool {
    &&& forall|i: int| 0 <= i < table.len() ==> 0 <= (#[trigger] table[i]).group < groups
    &&& forall|g: int| 0 <= g < groups ==> #[trigger] has_group(table, g)
    &&& forall|i: int|
        0 < i < table.len() ==> {
            ||| (#[trigger] table[i]).group == table[i - 1].group && table[i].binding == table[i
                - 1].binding + 1
            ||| table[i].group == table[i - 1].group + 1 && table[i].binding == 0
        }
    &&& forall|i: int|
        0 <= i < table.len() ==> usage_allows(
            usage_of((#[trigger] table[i]).buffer),
            table[i].kind,
        )
}

/// Where the kernel's table binds `buffer`.
pub open spec fn slot_of(buffer: BufferId) -> int {
    match buffer {
        BufferId::Output => 0,
        BufferId::Spheres => 1,
        BufferId::Light => 2,
        BufferId::Seed => 3,
        BufferId::Camera => 4,
        BufferId::EnvironmentPixels => 5,
        BufferId::EnvironmentDimensions => 6,
    }
}

/// The kernel's bindings are well formed over four groups.
pub proof fn lemma_compute_bindings_well_formed()
    ensures
        bindings_well_formed(compute_bindings(), BIND_GROUPS as int),
{
    let t = compute_bindings();
    assert(t.len() == 7);
    assert(t[0].group == 0 && t[0].binding == 0);
    assert(t[1].group == 1 && t[1].binding == 0);
    assert(t[2].group == 1 && t[2].binding == 1);
    assert(t[3].group == 1 && t[3].binding == 2);
    assert(t[4].group == 2 && t[4].binding == 0);
    assert(t[5].group == 3 && t[5].binding == 0);
    assert(t[6].group == 3 && t[6].binding == 1);
    assert(has_group(t, 0));
    assert(has_group(t, 1));
    assert(has_group(t, 2));
    assert(has_group(t, 3));
    assert forall|i: int| 0 <= i < t.len() implies usage_allows(
        usage_of((#[trigger] t[i]).buffer),
        t[i].kind,
    ) by {
        lemma_each_buffer_bound_once();
        assert(slot_of(t[i].buffer) == i);
    }
}

/// The kernel's table binds every buffer exactly once, each at its own
/// slot; the kernel can see every slot, and can write through none but that
/// of the traced image.
pub proof fn lemma_each_buffer_bound_once()
    ensures
        compute_bindings().len() == 7,
        forall|b: BufferId|
            0 <= #[trigger] slot_of(b) < 7 && compute_bindings()[slot_of(b)].buffer == b,
        forall|i: int|
            0 <= i < 7 ==> slot_of((#[trigger] compute_bindings()[i]).buffer) == i,
        forall|i: int| 0 <= i < 7 ==> (#[trigger] compute_bindings()[i]).visibility.compute,
        forall|i: int|
            0 <= i < 7 ==> ((#[trigger] compute_bindings()[i]).kind == BindingKind::StorageReadWrite
                <==> compute_bindings()[i].buffer == BufferId::Output),
{
    let t = compute_bindings();
    assert(t[0].buffer == BufferId::Output && t[0].kind == BindingKind::StorageReadWrite);
    assert(t[1].buffer == BufferId::Spheres && t[1].kind == BindingKind::StorageReadOnly);
    assert(t[2].buffer == BufferId::Light && t[2].kind == BindingKind::StorageReadOnly);
    assert(t[3].buffer == BufferId::Seed && t[3].kind == BindingKind::Uniform);
    assert(t[4].buffer == BufferId::Camera && t[4].kind == BindingKind::Uniform);
    assert(t[5].buffer == BufferId::EnvironmentPixels && t[5].kind
        == BindingKind::StorageReadOnly);
    assert(t[6].buffer == BufferId::EnvironmentDimensions && t[6].kind == BindingKind::Uniform);
    assert(t[0].visibility.compute && t[1].visibility.compute && t[2].visibility.compute
        && t[3].visibility.compute && t[4].visibility.compute && t[5].visibility.compute
        && t[6].visibility.compute);
}

/// The run that covers the traced image: all bind groups set, and one
/// workgroup for every square of `WORKGROUP_SIZE` by `WORKGROUP_SIZE`
/// texels, in a single layer.
pub open spec fn full_dispatch() -> Dispatch {
    Dispatch {
        bind_groups: BIND_GROUPS,
        x: RESOLUTION_X / WORKGROUP_SIZE,
        y: RESOLUTION_Y / WORKGROUP_SIZE,
        z: 1,
    }
}

/// The workgroups of a run tile the traced image evenly: 300 by 200 of them,
/// edge to edge along both axes with nothing left over, so that the
/// invocations of a run are as many as the image has texels and every texel
/// gets exactly one. The size of the window plays no part in it.
pub proof fn lemma_dispatch_tiles_image()
    ensures
        full_dispatch().x == 300,
        full_dispatch().y == 200,
        full_dispatch().z == 1,
        full_dispatch().bind_groups == BIND_GROUPS,
        full_dispatch().x * WORKGROUP_SIZE == RESOLUTION_X,
        full_dispatch().y * WORKGROUP_SIZE == RESOLUTION_Y,
        (full_dispatch().x * WORKGROUP_SIZE) * (full_dispatch().y * WORKGROUP_SIZE)
            * full_dispatch().z == RESOLUTION_X * RESOLUTION_Y,
        forall|px: int|
            0 <= px < RESOLUTION_X ==> 0 <= #[trigger] (px / (WORKGROUP_SIZE as int))
                < full_dispatch().x,
        forall|py: int|
            0 <= py < RESOLUTION_Y ==> 0 <= #[trigger] (py / (WORKGROUP_SIZE as int))
                < full_dispatch().y,
{
    assert(2400 * 1600 == 3_840_000) by (nonlinear_arith);
}

/// The resolution is a whole number of workgroups along both axes, the
/// buffer of the traced image holds one texel of `PIXEL_SIZE` bytes for each
/// pixel, and the buffers the host rewrites every frame can be written by it
/// in whole words.
pub proof fn lemma_resolution_and_sizes()
    ensures
        RESOLUTION_X % WORKGROUP_SIZE == 0,
        RESOLUTION_Y % WORKGROUP_SIZE == 0,
        output_size() == 61_440_000,
        output_size() <= u64::MAX,
        usage_of(BufferId::Camera).copy_dst,
        usage_of(BufferId::Seed).copy_dst,
        CAMERA_UNIFORM_SIZE % 4 == 0,
        SEED_SIZE % 4 == 0,
        CAMERA_UNIFORM_SIZE % 16 == 0,
        SPHERE_SIZE % 16 == 0,
        STAR_SIZE % 16 == 0,
{
    assert(RESOLUTION_X as int * RESOLUTION_Y as int * PIXEL_SIZE as int == 61_440_000)
        by (nonlinear_arith)
        requires
            RESOLUTION_X == 2400,
            RESOLUTION_Y == 1600,
            PIXEL_SIZE == 16,
    ;
}

/// The host's share of the compute side: its copy of the camera uniform and
/// the size of the environment map. The device objects are made from what
/// its methods return.
#[derive(Clone, Copy, Debug, PartialEq, Eq, Structural)]
pub struct ComputeState {
    pub camera_uniform: CameraUniform,
    pub env_dimensions: EnvDimensions,
}

impl ComputeState {
    /// The uniform of the camera at its starting position: `forward` is the
    /// unit direction to the initial target, up is the y axis, the field of
    /// view is 1.05 radians.
    pub open spec fn initial_uniform(forward: Vec3, aspect_ratio: Scalar) -> CameraUniform {
        CameraUniform {
            position: start_position(),
            aspect_ratio,
            up: Vec3 {
                x: Scalar { bits: 0 },
                y: Scalar { bits: 0x3F80_0000 },
                z: Scalar { bits: 0 },
            },
            fov_y: Scalar { bits: FOV_Y_BITS },
            forward,
            _padding2: Scalar { bits: 0 },
        }
    }

    /// What a buffer holds when it is created, for the buffers the host
    /// fills from its own data. The traced image starts out unwritten and
    /// the environment pixels come from the decoded image.
    pub open spec fn initial_contents(self, buffer: BufferId) -> Option<Seq<u8>> {
        match buffer {
            BufferId::Output | BufferId::EnvironmentPixels => None,
            BufferId::Spheres => Some(encoded(spheres_words(scene_spheres_spec()))),
            BufferId::Light => Some(encoded(scene_light_spec().words())),
            BufferId::Seed => Some(encoded(seq![0u32])),
            BufferId::Camera => Some(encoded(self.camera_uniform.words())),
            BufferId::EnvironmentDimensions => Some(encoded(self.env_dimensions.words())),
        }
    }

    /// The state at start-up, for a surface of the given aspect ratio and an
    /// environment map of the given size.
    pub fn new(
        forward: Vec3,
        aspect_ratio: Scalar,
        env_dimensions: EnvDimensions,
    ) -> (state: ComputeState)
        ensures
            state.camera_uniform == ComputeState::initial_uniform(forward, aspect_ratio),
            state.env_dimensions == env_dimensions,
    {
        let camera_uniform = CameraUniform::new(
            Scene::initial_position(),
            forward,
            Vec3::from_bits(0, 0x3F80_0000, 0),
            Scalar { bits: FOV_Y_BITS },
            aspect_ratio,
        );
        ComputeState { camera_uniform, env_dimensions }
    }

    /// The bindings of the kernel, in order of group and binding.
    pub fn bindings() -> (table: Vec<Binding>)
        ensures
            table@ == compute_bindings(),
    {
        let compute_only = Stages { compute: true, fragment: false };
        let both = Stages { compute: true, fragment: true };
        let mut table: Vec<Binding> = Vec::new();
        table.push(
            Binding {
                group: 0,
                binding: 0,
                visibility: both,
                kind: BindingKind::StorageReadWrite,
                buffer: BufferId::Output,
            },
        );
        table.push(
            Binding {
                group: 1,
                binding: 0,
                visibility: compute_only,
                kind: BindingKind::StorageReadOnly,
                buffer: BufferId::Spheres,
            },
        );
        table.push(
            Binding {
                group: 1,
                binding: 1,
                visibility: compute_only,
                kind: BindingKind::StorageReadOnly,
                buffer: BufferId::Light,
            },
        );
        table.push(
            Binding {
                group: 1,
                binding: 2,
                visibility: compute_only,
                kind: BindingKind::Uniform,
                buffer: BufferId::Seed,
            },
        );
        table.push(
            Binding {
                group: 2,
                binding: 0,
                visibility: compute_only,
                kind: BindingKind::Uniform,
                buffer: BufferId::Camera,
            },
        );
        table.push(
            Binding {
                group: 3,
                binding: 0,
                visibility: both,
                kind: BindingKind::StorageReadOnly,
                buffer: BufferId::EnvironmentPixels,
            },
        );
        table.push(
            Binding {
                group: 3,
                binding: 1,
                visibility: both,
                kind: BindingKind::Uniform,
                buffer: BufferId::EnvironmentDimensions,
            },
        );
        assert(table@ =~= compute_bindings());
        table
    }

    /// What `buffer` is created for.
    pub fn usage(buffer: BufferId) -> (usage: Usage)
        ensures
            usage == usage_of(buffer),
    {
        match buffer {
            BufferId::Output => Usage {
                storage: true,
                uniform: false,
                copy_dst: true,
                copy_src: true,
            },
            BufferId::Spheres | BufferId::Light | BufferId::EnvironmentPixels => Usage {
                storage: true,
                uniform: false,
                copy_dst: true,
                copy_src: false,
            },
            BufferId::Seed | BufferId::Camera | BufferId::EnvironmentDimensions => Usage {
                storage: false,
                uniform: true,
                copy_dst: true,
                copy_src: false,
            },
        }
    }

    /// Bytes of the traced image. It does not depend on the surface.
    pub fn output_buffer_size() -> (size: u64)
        ensures
            size == output_size(),
    {
        let x: u64 = RESOLUTION_X as u64;
        let y: u64 = RESOLUTION_Y as u64;
        assert(x * y == 3_840_000 && x * y * PIXEL_SIZE == 61_440_000) by (nonlinear_arith)
            requires
                x == 2400,
                y == 1600,
                PIXEL_SIZE == 16,
        ;
        x * y * PIXEL_SIZE
    }

    /// What `buffer` is created with, if the host has its content.
    pub fn contents(&self, buffer: BufferId) -> (bytes: Option<Vec<u8>>)
        ensures
            bytes.is_some() == self.initial_contents(buffer).is_some(),
            bytes matches Some(b) ==> b@ == self.initial_contents(buffer).unwrap(),
    {
        match buffer {
            BufferId::Output | BufferId::EnvironmentPixels => None,
            BufferId::Spheres => {
                let spheres = scene_spheres();
                Some(encode_spheres(&spheres))
            },
            BufferId::Light => Some(scene_light().to_bytes()),
            BufferId::Seed => Some(seed_bytes(0)),
            BufferId::Camera => Some(self.camera_uniform.to_bytes()),
            BufferId::EnvironmentDimensions => Some(self.env_dimensions.to_bytes()),
        }
    }

    /// One run of the kernel over the whole traced image, with all four bind
    /// groups set. The workgroups tile the image: along each axis there are
    /// as many as fit into the resolution, and they fit without remainder.
    pub fn dispatch(&self) -> (run: Dispatch)
        ensures
            run == full_dispatch(),
            run.x * WORKGROUP_SIZE == RESOLUTION_X,
            run.y * WORKGROUP_SIZE == RESOLUTION_Y,
    {
        Dispatch {
            bind_groups: BIND_GROUPS,
            x: RESOLUTION_X / WORKGROUP_SIZE,
            y: RESOLUTION_Y / WORKGROUP_SIZE,
            z: 1,
        }
    }

    /// Takes the aspect ratio of the resized surface and returns the new
    /// content of the camera buffer. The traced image keeps its resolution.
    pub fn resize(&mut self, aspect_ratio: Scalar) -> (camera: Vec<u8>)
        ensures
            final(self).camera_uniform == old(self).camera_uniform.resized(aspect_ratio),
            final(self).env_dimensions == old(self).env_dimensions,
            camera@ == encoded(final(self).camera_uniform.words()),
            camera.len() == CAMERA_UNIFORM_SIZE,
    {
        self.camera_uniform.resize(aspect_ratio);
        self.camera_uniform.to_bytes()
    }

    /// Ends a frame: completes the camera update with the frame's `position`
    /// and `forward`, and returns the new contents of the camera buffer and
    /// of the seed buffer.
    pub fn update(
        &mut self,
        cameracontroller: &mut CameraController,
        scene: &mut Scene,
        position: Vec3,
        forward: Vec3,
        seed: u32,
    ) -> (upload: FrameUpload)
        ensures
            final(scene).camera == (Camera { position, ..old(scene).camera }),
            final(self).camera_uniform == (CameraUniform {
                position,
                forward,
                ..old(self).camera_uniform
            }),
            final(self).env_dimensions == old(self).env_dimensions,
            final(cameracontroller)@ == old(cameracontroller)@.rotation_consumed(),
            upload.camera@ == encoded(final(self).camera_uniform.words()),
            upload.camera.len() == CAMERA_UNIFORM_SIZE,
            upload.seed@ == encoded(seq![seed]),
            upload.seed.len() == SEED_SIZE,
    {
        scene.compile_camera(cameracontroller, position, forward, &mut self.camera_uniform);
        let camera = self.camera_uniform.to_bytes();
        FrameUpload { camera, seed: seed_bytes(seed) }
    }
}

/// A seed as the bytes of the seed buffer.
pub fn seed_bytes(seed: u32) -> (bytes: Vec<u8>)
    ensures
        bytes@ == encoded(seq![seed]),
        bytes.len() == SEED_SIZE,
{
    let mut words: Vec<u32> = Vec::new();
    words.push(seed);
    assert(words@ =~= seq![seed]);
    encode_words(&words)
}

/// Seeds are wall-clock milliseconds reduced modulo this value.
pub const SEED_MODULUS: u128 = 0xFFFF_FFFF;

/// The seed that belongs to a wall-clock reading in milliseconds since the
/// Unix epoch.
pub open spec fn seed_of_millis(millis: u128) -> u32 {
    (millis % SEED_MODULUS) as u32
}

/// Reduces a wall-clock reading to a seed for the kernel's sampler.
pub fn seed_from_millis(millis: u128) -> (seed: u32)
    ensures
        seed == seed_of_millis(millis),
        seed < SEED_MODULUS,
{
    (millis % SEED_MODULUS) as u32
}

/// The seed that belongs to a reading of the wall clock: the seed of its
/// milliseconds, and none where the clock gave no reading.
pub open spec fn seed_of_reading(reading: Option<u128>) -> Option<u32> {
    match reading {
        Some(millis) => Some(seed_of_millis(millis)),
        None => None,
    }
}

/// Turns a reading of the wall clock, in milliseconds since the Unix epoch,
/// into a seed. A clock that shows a time before the epoch gives no reading,
/// and then there is no seed.
pub fn seed_from_reading(reading: Option<u128>) -> (seed: Option<u32>)
    ensures
        seed == seed_of_reading(reading),
        seed.is_some() == reading.is_some(),
        seed matches Some(s) ==> s < SEED_MODULUS,
{
    match reading {
        Some(millis) => Some(seed_from_millis(millis)),
        None => None,
    }
}

/// A fresh seed from the wall clock: the seed of the milliseconds since the
/// Unix epoch. There is none while the clock shows a time before the epoch.
pub fn random_seed() -> (seed: Option<u32>)
    ensures
        exists|reading: Option<u128>| seed == seed_of_reading(reading),
        seed matches Some(s) ==> s < SEED_MODULUS && exists|millis: u128|
            s == seed_of_millis(millis),
{
    let now = wall_clock_now();
    let reading = match since_unix_epoch(&now) {
        Ok(since_epoch) => Some(whole_millis(&since_epoch)),
        Err(_) => None,
    };
    let seed = seed_from_reading(reading);
    assert(seed == seed_of_reading(reading));
    seed
}

/// The slots of one bind group, in the order of the table.
pub fn group_bindings(table: &Vec<Binding>, group: u32) -> (slots: Vec<Binding>)
    ensures
        slots@ == table@.filter(|b: Binding| b.group == group),
{
    let ghost in_group = |b: Binding| b.group == group;
    let mut slots: Vec<Binding> = Vec::new();
    let mut i: usize = 0;
    proof {
        reveal(Seq::filter);
        assert(table@.take(0) =~= Seq::<Binding>::empty());
    }
    while i < table.len()
        invariant
            0 <= i <= table.len(),
            in_group == (|b: Binding| b.group == group),
            slots@ == table@.take(i as int).filter(in_group),
        decreases table.len() - i,
    {
        proof {
            reveal(Seq::filter);
            assert(table@.take(i as int + 1).drop_last() =~= table@.take(i as int));
        }
        if table[i].group == group {
            slots.push(table[i]);
        }
        i += 1;
    }
    assert(table@.take(i as int) =~= table@);
    slots
}

} // verus!
