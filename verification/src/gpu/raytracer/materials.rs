//! Surface materials and the named presets of the scene.

use crate::scalar::Scalar;
use vstd::prelude::*;

verus! {

/// A colour with its opacity.
#[derive(Clone, Copy, Debug, PartialEq, Eq, Structural)]
pub struct Rgba {
    pub r: Scalar,
    pub g: Scalar,
    pub b: Scalar,
    pub a: Scalar,
}

/// How a surface answers light. The kernel reads the fields in this order,
/// one word each, the colour as red, green, blue and alpha.
#[derive(Clone, Copy, Debug, PartialEq, Eq, Structural)]
pub struct Material {
    pub refractive_index: Scalar,
    /// Blend between mirror (zero) and matte (one) reflection.
    pub mirror_matte: Scalar,
    pub absorption: Scalar,
    pub specular: Scalar,
    pub color: Rgba,
}

impl Material {
    /// The material as the kernel's eight words.
    pub open spec fn words(self) -> Seq<u32> {
        seq![
            self.refractive_index.bits,
            self.mirror_matte.bits,
            self.absorption.bits,
            self.specular.bits,
            self.color.r.bits,
            self.color.g.bits,
            self.color.b.bits,
            self.color.a.bits,
        ]
    }

    /// The material whose fields have the given bit patterns.
    pub open spec fn of_bits(
        refractive_index: u32,
        mirror_matte: u32,
        absorption: u32,
        specular: u32,
        color: Seq<u32>,
    ) -> Material
        recommends
            color.len() == 4,
    {
        Material {
            refractive_index: Scalar { bits: refractive_index },
            mirror_matte: Scalar { bits: mirror_matte },
            absorption: Scalar { bits: absorption },
            specular: Scalar { bits: specular },
            color: Rgba {
                r: Scalar { bits: color[0] },
                g: Scalar { bits: color[1] },
                b: Scalar { bits: color[2] },
                a: Scalar { bits: color[3] },
            },
        }
    }

    pub fn from_bits(
        refractive_index: u32,
        mirror_matte: u32,
        absorption: u32,
        specular: u32,
        color: [u32; 4],
    ) -> (m: Material)
        ensures
            m == Material::of_bits(refractive_index, mirror_matte, absorption, specular, color@),
            m.words() == seq![
                refractive_index,
                mirror_matte,
                absorption,
                specular,
                color[0],
                color[1],
                color[2],
                color[3],
            ],
    {
        Material {
            refractive_index: Scalar { bits: refractive_index },
            mirror_matte: Scalar { bits: mirror_matte },
            absorption: Scalar { bits: absorption },
            specular: Scalar { bits: specular },
            color: Rgba {
                r: Scalar { bits: color[0] },
                g: Scalar { bits: color[1] },
                b: Scalar { bits: color[2] },
                a: Scalar { bits: color[3] },
            },
        }
    }

    /// Appends the material's words to `out`.
    pub fn push_words(&self, out: &mut Vec<u32>)
        ensures
            final(out)@ == old(out)@ + self.words(),
    {
        out.push(self.refractive_index.bits);
        out.push(self.mirror_matte.bits);
        out.push(self.absorption.bits);
        out.push(self.specular.bits);
        out.push(self.color.r.bits);
        out.push(self.color.g.bits);
        out.push(self.color.b.bits);
        out.push(self.color.a.bits);
        assert(out@ =~= old(out)@ + self.words());
    }
}

/// The bit patterns of `glass_material`.
pub open spec fn glass_material_spec() -> Material {
    Material::of_bits(
        0x3FC0_0000,
        0x0000_0000,
        0x3C23_D70A,
        0x3F66_6666,
        seq![0x3F4C_CCCDu32, 0x3F4C_CCCDu32, 0x3F80_0000u32, 0x3F80_0000u32],
    )
}

/// Clear glass: refracts strongly, absorbs almost nothing.
///
/// Refractive index 1.5, mirror-matte 0.0, absorption 0.01, specular 0.9,
/// colour (0.8, 0.8, 1.0, 1.0).
#[verifier::when_used_as_spec(glass_material_spec)]
pub fn glass_material() -> (m: Material)
    ensures
        m == glass_material_spec(),
{
    Material::from_bits(
        0x3FC0_0000,
        0x0000_0000,
        0x3C23_D70A,
        0x3F66_6666,
        [0x3F4C_CCCD, 0x3F4C_CCCD, 0x3F80_0000, 0x3F80_0000],
    )
}

/// The bit patterns of `metal_material`.
pub open spec fn metal_material_spec() -> Material {
    Material::of_bits(
        0x0000_0000,
        0x3C23_D70A,
        0x3E99_999A,
        0x3F73_3333,
        seq![0x3F4C_CCCDu32, 0x3F4C_CCCDu32, 0x3F59_999Au32, 0x3F80_0000u32],
    )
}

/// Brushed metal: opaque and highly specular.
///
/// Refractive index 0.0, mirror-matte 0.01, absorption 0.3, specular 0.95,
/// colour (0.8, 0.8, 0.85, 1.0).
#[verifier::when_used_as_spec(metal_material_spec)]
pub fn metal_material() -> (m: Material)
    ensures
        m == metal_material_spec(),
{
    Material::from_bits(
        0x0000_0000,
        0x3C23_D70A,
        0x3E99_999A,
        0x3F73_3333,
        [0x3F4C_CCCD, 0x3F4C_CCCD, 0x3F59_999A, 0x3F80_0000],
    )
}

/// The bit patterns of `colored_glass`.
pub open spec fn colored_glass_spec() -> Material {
    Material::of_bits(
        0x3FA6_6666,
        0x3DCC_CCCD,
        0x3F00_0000,
        0x3F59_999A,
        seq![0x3F33_3333u32, 0x3DCC_CCCDu32, 0x3E4C_CCCDu32, 0x3F80_0000u32],
    )
}

/// Red tinted glass.
///
/// Refractive index 1.3, mirror-matte 0.1, absorption 0.5, specular 0.85,
/// colour (0.7, 0.1, 0.2, 1.0).
#[verifier::when_used_as_spec(colored_glass_spec)]
pub fn colored_glass() -> (m: Material)
    ensures
        m == colored_glass_spec(),
{
    Material::from_bits(
        0x3FA6_6666,
        0x3DCC_CCCD,
        0x3F00_0000,
        0x3F59_999A,
        [0x3F33_3333, 0x3DCC_CCCD, 0x3E4C_CCCD, 0x3F80_0000],
    )
}

/// The bit patterns of `dark_mirror`.
pub open spec fn dark_mirror_spec() -> Material {
    Material::of_bits(
        0x0000_0000,
        0x0000_0000,
        0x3F66_6666,
        0x3F80_0000,
        seq![0x3DCC_CCCDu32, 0x3DCC_CCCDu32, 0x3DCC_CCCDu32, 0x3F80_0000u32],
    )
}

/// A nearly black perfect mirror.
///
/// Refractive index 0.0, mirror-matte 0.0, absorption 0.9, specular 1.0,
/// colour (0.1, 0.1, 0.1, 1.0).
#[verifier::when_used_as_spec(dark_mirror_spec)]
pub fn dark_mirror() -> (m: Material)
    ensures
        m == dark_mirror_spec(),
{
    Material::from_bits(
        0x0000_0000,
        0x0000_0000,
        0x3F66_6666,
        0x3F80_0000,
        [0x3DCC_CCCD, 0x3DCC_CCCD, 0x3DCC_CCCD, 0x3F80_0000],
    )
}

/// The bit patterns of `polished_gold`.
pub open spec fn polished_gold_spec() -> Material {
    Material::of_bits(
        0x0000_0000,
        0x3D4C_CCCD,
        0x3E4C_CCCD,
        0x3F66_6666,
        seq![0x3F80_0000u32, 0x3F57_CED9u32, 0x0000_0000u32, 0x3F80_0000u32],
    )
}

/// Polished gold.
///
/// Refractive index 0.0, mirror-matte 0.05, absorption 0.2, specular 0.9,
/// colour (1.0, 0.843, 0.0, 1.0).
#[verifier::when_used_as_spec(polished_gold_spec)]
pub fn polished_gold() -> (m: Material)
    ensures
        m == polished_gold_spec(),
{
    Material::from_bits(
        0x0000_0000,
        0x3D4C_CCCD,
        0x3E4C_CCCD,
        0x3F66_6666,
        [0x3F80_0000, 0x3F57_CED9, 0x0000_0000, 0x3F80_0000],
    )
}

/// The bit patterns of `pearlescent`.
pub open spec fn pearlescent_spec() -> Material {
    Material::of_bits(
        0x0000_0000,
        0x3C23_D70A,
        0x3F0C_CCCD,
        0x3F4C_CCCD,
        seq![0x3F7A_E148u32, 0x3F6B_851Fu32, 0x3F66_6666u32, 0x3F80_0000u32],
    )
}

/// Pearl: pale and softly reflective.
///
/// Refractive index 0.0, mirror-matte 0.01, absorption 0.55, specular 0.8,
/// colour (0.98, 0.92, 0.9, 1.0).
#[verifier::when_used_as_spec(pearlescent_spec)]
pub fn pearlescent() -> (m: Material)
    ensures
        m == pearlescent_spec(),
{
    Material::from_bits(
        0x0000_0000,
        0x3C23_D70A,
        0x3F0C_CCCD,
        0x3F4C_CCCD,
        [0x3F7A_E148, 0x3F6B_851F, 0x3F66_6666, 0x3F80_0000],
    )
}

/// The bit patterns of `emerald_crystal`.
pub open spec fn emerald_crystal_spec() -> Material {
    Material::of_bits(
        0x3FCC_CCCD,
        0x3DCC_CCCD,
        0x3D4C_CCCD,
        0x3F4C_CCCD,
        seq![0x0000_0000u32, 0x3F4C_CCCDu32, 0x3E99_999Au32, 0x3F33_3333u32],
    )
}

/// Green crystal, slightly translucent.
///
/// Refractive index 1.6, mirror-matte 0.1, absorption 0.05, specular 0.8,
/// colour (0.0, 0.8, 0.3, 0.7).
#[verifier::when_used_as_spec(emerald_crystal_spec)]
pub fn emerald_crystal() -> (m: Material)
    ensures
        m == emerald_crystal_spec(),
{
    Material::from_bits(
        0x3FCC_CCCD,
        0x3DCC_CCCD,
        0x3D4C_CCCD,
        0x3F4C_CCCD,
        [0x0000_0000, 0x3F4C_CCCD, 0x3E99_999A, 0x3F33_3333],
    )
}

/// The bit patterns of `rusty_metal`.
pub open spec fn rusty_metal_spec() -> Material {
    Material::of_bits(
        0x0000_0000,
        0x3F80_0000,
        0x3F00_0000,
        0x3E4C_CCCD,
        seq![0x3F19_999Au32, 0x3E99_999Au32, 0x3E4C_CCCDu32, 0x3F80_0000u32],
    )
}

/// Rusted metal: fully matte.
///
/// Refractive index 0.0, mirror-matte 1.0, absorption 0.5, specular 0.2,
/// colour (0.6, 0.3, 0.2, 1.0).
#[verifier::when_used_as_spec(rusty_metal_spec)]
pub fn rusty_metal() -> (m: Material)
    ensures
        m == rusty_metal_spec(),
{
    Material::from_bits(
        0x0000_0000,
        0x3F80_0000,
        0x3F00_0000,
        0x3E4C_CCCD,
        [0x3F19_999A, 0x3E99_999A, 0x3E4C_CCCD, 0x3F80_0000],
    )
}

/// The bit patterns of `obsidian`.
pub open spec fn obsidian_spec() -> Material {
    Material::of_bits(
        0x3F99_999A,
        0x3D4C_CCCD,
        0x3F33_3333,
        0x3F59_999A,
        seq![0x3D4C_CCCDu32, 0x3D4C_CCCDu32, 0x3DCC_CCCDu32, 0x3F66_6666u32],
    )
}

/// Volcanic glass: dark, with a faint sheen.
///
/// Refractive index 1.2, mirror-matte 0.05, absorption 0.7, specular 0.85,
/// colour (0.05, 0.05, 0.1, 0.9).
#[verifier::when_used_as_spec(obsidian_spec)]
pub fn obsidian() -> (m: Material)
    ensures
        m == obsidian_spec(),
{
    Material::from_bits(
        0x3F99_999A,
        0x3D4C_CCCD,
        0x3F33_3333,
        0x3F59_999A,
        [0x3D4C_CCCD, 0x3D4C_CCCD, 0x3DCC_CCCD, 0x3F66_6666],
    )
}

} // verus!
