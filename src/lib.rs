//! Verified core of a sphere-tracing path renderer: the decisions of the sphere tracer and
//! the path integrator, the checkerboard material's tile choice, the row-major pixel layout
//! and the accumulation buffer of progressive rendering, and eight-bit colours.
use vstd::prelude::*;

pub mod accum;
pub mod color32;
pub mod material;
pub mod raster;
pub mod renderer;

verus! {

} // verus!
