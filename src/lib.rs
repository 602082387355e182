//! The GPU command-processing actor's own logic: the staging-buffer pools that
//! turn a rendered texture into a frame for the compositor, the registry of pending
//! buffer mappings, the image map the compositor reads, the actor's per-request
//! decisions, and the canvas side of configuring and presenting a swap chain.
use vstd::prelude::*;

pub mod actor;
pub mod bridge;
pub mod context;
pub mod images;
pub mod laws;
pub mod pool;
pub mod presentation;
pub mod staging;

verus! {

/// How many staging buffers a presentation surface may cycle through.
pub const PRESENTATION_BUFFER_COUNT: usize = 10;

} // verus!
