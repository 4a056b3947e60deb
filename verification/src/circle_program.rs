//! The plain shape and circle shader programs' handle and location cache.

use vstd::prelude::*;

verus! {

/// A compiled shape shader program: its device handle and the uniform and
/// attribute locations looked up once after linking, so that every draw
/// call can set them without querying the device again.  The same layout
/// serves the plain shape and the circle fragment shaders, which share
/// their vertex format.
#[derive(Debug)]
pub struct CircleProgram {
    pub program: u32,
    pub matrix_uniform: i32,
    pub offset_uniform: i32,
    pub point_size_uniform: i32,
    pub bcol_uniform: i32,
    pub pos_attr: i32,
}

} // verus!
