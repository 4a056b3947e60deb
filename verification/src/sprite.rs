//! Tile-set textures and sprite indexing.
//!
//! A sprite vertex carries, besides its position, an index that tells the
//! shader which tile of a tile-set texture to draw.  The texture itself
//! lives on the graphics device; this module keeps what the indexing
//! arithmetic needs: the handle, the tile grid dimensions, and the pixel
//! dimensions of the image.

use vstd::prelude::*;

verus! {

/// The texture index is the piece of data every sprite has besides its
/// position.  It tells the shader which part of a texture to draw.  On the
/// device the index is split back into an x and y coordinate; an index
/// beyond the tile count is wrapped, so no index value is invalid, but the
/// caller should pick one that maps to a real tile to begin with.
pub struct TexIndex(pub u32);

/// A tile-set texture on the graphics device: its handle, how many tiles
/// the set has in x and y, and the pixel dimensions of the whole image.
#[derive(Debug)]
pub struct Texture {
    grid_dim: [u8; 2],
    dim: [u32; 2],
    id: u32,
}

impl Texture {
    /// The tile counts in x and y the texture was built with.
    pub closed spec fn spec_grid_dim(&self) -> Seq<u8> {
        self.grid_dim@
    }

    /// The pixel dimensions the texture was built with.
    pub closed spec fn spec_dim(&self) -> Seq<u32> {
        self.dim@
    }

    /// The device handle the texture was built with.
    pub closed spec fn spec_id(&self) -> u32 {
        self.id
    }

    /// Records a texture already uploaded to the graphics device under the
    /// handle `id`, with `grid_dim` tiles in x and y and `dim` pixels.
    pub fn new(id: u32, grid_dim: [u8; 2], dim: [u32; 2]) -> (t: Texture)
        ensures
            t.spec_id() == id,
            t.spec_grid_dim() == grid_dim@,
            t.spec_dim() == dim@,
    {
        Texture { grid_dim, dim, id }
    }

    pub fn id(&self) -> (id: u32)
        ensures
            id == self.spec_id(),
    {
        self.id
    }

    pub fn grid_dim(&self) -> (g: [u8; 2])
        ensures
            g@ == self.spec_grid_dim(),
    {
        self.grid_dim
    }

    pub fn dim(&self) -> (d: [u32; 2])
        ensures
            d@ == self.spec_dim(),
    {
        self.dim
    }

    /// Create a texture index from a coordinate in the tile set.  The top
    /// left tile maps to 0,0; the x component grows to the right and the y
    /// component grows downwards.  The index is the row-major position of
    /// the tile: row times tiles-per-row, plus column.
    pub fn coord_to_index(&self, cell: [u8; 2]) -> (index: u16)
        ensures
            index == self.spec_grid_dim()[0] * cell@[1] + cell@[0],
    {
        let row_width = self.grid_dim[0] as u16;
        let x = cell[0] as u16;
        let y = cell[1] as u16;
        assert(row_width * y <= 255 * 255) by (nonlinear_arith)
            requires
                row_width <= 255,
                y <= 255,
        ;
        row_width * y + x
    }
}

} // verus!
