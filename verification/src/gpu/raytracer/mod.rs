pub mod compute_pipeline;
pub mod fragment_pipeline;
pub mod materials;
