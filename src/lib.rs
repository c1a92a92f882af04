//! Per-shape rendering: pivot-centred transforms, fill dispatch and the
//! even-odd correction for path shapes, expressed as verified drawing plans.
pub mod geometry;
pub mod shape;
pub mod plan;
pub mod markup;
pub mod laws;
