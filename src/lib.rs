//! Frame-rendering core of a hardware ray-tracing renderer.
//!
//! The device itself is driven by the application shell; this library holds
//! the rules that decide what the shell does: which frame slot a frame uses,
//! when a fence must be waited on, when the swapchain is rebuilt, how the
//! shader-binding table and acceleration-structure inputs are laid out.
use vstd::prelude::*;

pub mod accel;
pub mod commands;
pub mod data;
pub mod frame;
pub mod memory;
pub mod mesh;
pub mod pipeline;
pub mod queue;
pub mod swapchain;

verus! {

/// Values that are uploaded to the device as raw bytes.
pub trait IntoBytes {
    fn to_bytes(&self) -> Vec<u8>;
}

} // verus!
