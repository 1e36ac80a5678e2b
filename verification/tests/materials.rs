use raytracer::gpu::raytracer::materials::{
    colored_glass, dark_mirror, emerald_crystal, glass_material, metal_material, obsidian,
    pearlescent, polished_gold, rusty_metal, Material,
};

fn check(m: Material, refractive_index: f32, mirror_matte: f32, absorption: f32, specular: f32, color: [f32; 4]) {
    assert_eq!(m.refractive_index.to_bits(), refractive_index.to_bits());
    assert_eq!(m.mirror_matte.to_bits(), mirror_matte.to_bits());
    assert_eq!(m.absorption.to_bits(), absorption.to_bits());
    assert_eq!(m.specular.to_bits(), specular.to_bits());
    assert_eq!(m.color.r.to_bits(), color[0].to_bits());
    assert_eq!(m.color.g.to_bits(), color[1].to_bits());
    assert_eq!(m.color.b.to_bits(), color[2].to_bits());
    assert_eq!(m.color.a.to_bits(), color[3].to_bits());
}

#[test]
fn glass_preset() {
    check(glass_material(), 1.5, 0.0, 0.01, 0.9, [0.8, 0.8, 1.0, 1.0]);
}

#[test]
fn metal_preset() {
    check(metal_material(), 0.0, 0.01, 0.3, 0.95, [0.8, 0.8, 0.85, 1.0]);
}

#[test]
fn colored_glass_preset() {
    check(colored_glass(), 1.3, 0.1, 0.5, 0.85, [0.7, 0.1, 0.2, 1.0]);
}

#[test]
fn dark_mirror_preset() {
    check(dark_mirror(), 0.0, 0.0, 0.9, 1.0, [0.1, 0.1, 0.1, 1.0]);
}

#[test]
fn polished_gold_preset() {
    check(polished_gold(), 0.0, 0.05, 0.2, 0.9, [1.0, 0.843, 0.0, 1.0]);
}

#[test]
fn pearlescent_preset() {
    check(pearlescent(), 0.0, 0.01, 0.55, 0.8, [0.98, 0.92, 0.9, 1.0]);
}

#[test]
fn emerald_crystal_preset() {
    check(emerald_crystal(), 1.6, 0.1, 0.05, 0.8, [0.0, 0.8, 0.3, 0.7]);
}

#[test]
fn rusty_metal_preset() {
    check(rusty_metal(), 0.0, 1.0, 0.5, 0.2, [0.6, 0.3, 0.2, 1.0]);
}

#[test]
fn obsidian_preset() {
    check(obsidian(), 1.2, 0.05, 0.7, 0.85, [0.05, 0.05, 0.1, 0.9]);
}

#[test]
fn a_material_is_eight_words_in_field_order() {
    let m = Material::from_bits(1, 2, 3, 4, [5, 6, 7, 8]);
    let mut out: Vec<u32> = vec![0];
    m.push_words(&mut out);
    assert_eq!(out, vec![0u32, 1, 2, 3, 4, 5, 6, 7, 8]);
    assert_eq!(out.len() - 1, 8);
}

#[test]
fn presets_differ() {
    let all = [
        glass_material(),
        metal_material(),
        colored_glass(),
        dark_mirror(),
        polished_gold(),
        pearlescent(),
        emerald_crystal(),
        rusty_metal(),
        obsidian(),
    ];
    for i in 0..all.len() {
        for j in 0..all.len() {
            assert_eq!(all[i] == all[j], i == j);
        }
    }
}
