//! The decisions behind a few small windowed rendering programs: reading
//! shader compile and link status, sizing vertex buffer uploads, answering
//! window events and tracking the close flag, and choosing a surface format.
use vstd::prelude::*;

pub mod buffers;
pub mod shader;
pub mod surface;
pub mod window;

verus! {

} // verus!
