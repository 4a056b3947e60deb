//! The textured shape shader program's handle and location cache.

use vstd::prelude::*;

verus! {

/// The compiled textured shape shader program: its device handle and the
/// uniform and attribute locations looked up once after linking, so that
/// every draw call can set them without querying the device again.
#[derive(Debug)]
pub struct TexturedShapeProgram {
    pub program: u32,
    pub matrix_uniform: i32,
    pub offset_uniform: i32,
    pub texture_dim_uniform: i32,
    pub texture_offset_uniform: i32,
    pub texture_scale_uniform: i32,
    pub point_size_uniform: i32,
    pub bcol_uniform: i32,
    pub pos_attr: i32,
    pub sample_location: i32,
}

} // verus!
