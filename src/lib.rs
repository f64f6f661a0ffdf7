//! A small rendering harness core: shader program construction, interleaved
//! geometry upload, texture upload and the frame loop, expressed as verified
//! plans of device commands. The host executes each plan, in order, against
//! the graphics device and hands back what the device answered.
use vstd::prelude::*;

pub mod device;
pub mod error;
pub mod frame;
pub mod geometry;
pub mod layout;
pub mod shader;
pub mod texture;

verus! {

} // verus!
