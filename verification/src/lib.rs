pub mod scalar;
pub mod color;
pub mod vec3;
pub mod parameters;
pub mod camera;
pub mod materials;
pub mod geometry;
pub mod scene;
pub mod sampler;
pub mod renderer;
pub mod statistics;
pub mod surface;
pub mod writer;
pub mod format_pnm;
pub mod format_png;
pub mod setup;
