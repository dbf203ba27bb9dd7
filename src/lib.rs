//! A GPU command-submission core, stated and proved with Verus: device and
//! queue-family selection, resource sizing and descriptor binding, pipeline
//! compatibility, command recording rules, submission tracking and host
//! synchronisation, the presentation loop's decisions, and reference
//! semantics for the triangle draw and the scaling compute kernel.

pub mod command;
pub mod compute;
pub mod device;
pub mod engine;
pub mod pipeline;
pub mod present;
pub mod raster;
pub mod resource;
pub mod swapchain;
pub mod sync;
