//! Orchestration core of a raster-to-vector tracer: transparency keying,
//! key-color selection, binary thresholding, configuration resolution,
//! clustering parameters, path emission order and progress checkpoints.

pub mod pixel;
pub mod keying;
pub mod binary;
pub mod config;
pub mod clustering;
pub mod emission;
pub mod progress;
