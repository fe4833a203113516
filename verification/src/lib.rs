//! Procedural planet-shape core: a seeded simplex-noise permutation kernel,
//! fractal filter and layer records, and the layer-composition bookkeeping
//! that turns a stack of noise layers into an elevation field.
//!
//! Everything integer and structural is verified here: permutation-table
//! construction, gradient and corner selection, configuration validation,
//! warp-source resolution, layer bookkeeping, and the packed record format
//! for batch evaluation. Real-valued parameters are carried as opaque bit
//! patterns; a host performs the numeric evaluation against the decisions
//! and tables this crate proves correct.

pub mod noise;
pub mod noise_filter;
pub mod scalar;
pub mod shape;
pub mod storage;
