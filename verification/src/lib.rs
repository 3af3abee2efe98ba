//! Model of a single-window GPU frame-composition pipeline: a surface
//! configuration whose dimensions are always clamped to at least one,
//! size-dependent frame resources that are replaced wholesale on resize,
//! a monotonic frame clock, per-frame uniform data with a fixed byte
//! layout, and an event-driven frame loop that plans the per-frame
//! command sequence (optional dissolve compute pass, copy, multisampled
//! render pass, copy to the presentable image, submit, present).

pub mod config;
pub mod frame;
pub mod pipeline;
pub mod resources;
pub mod timing;
pub mod uniforms;
