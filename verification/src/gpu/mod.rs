pub mod layout;
pub mod raytracer;
pub mod wgpu_init;
