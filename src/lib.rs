//! Rendering backend logic for an immediate-mode GUI drawn through an explicit
//! graphics API: texture bookkeeping, geometry streaming, scissor clamping,
//! pipeline configuration and the per-frame command plan.
//!
//! Every decision is made here, on plain values; the calls into the graphics
//! API that carry the decisions out are made by the embedding program.
pub mod geometry;
pub mod texture;
pub mod registry;
pub mod scissor;
pub mod encoder;
pub mod pipeline;
