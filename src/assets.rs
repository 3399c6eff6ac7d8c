use vstd::prelude::*;

verus! {

/// How many block meshes there are, one for each block type.
pub const BLOCK_TYPES: usize = 53;

/// The index of the mesh for block type `id`: unknown types fall back to the
/// first mesh.
pub open spec fn block_slot(id: u8) -> int {
    if (id as int) < BLOCK_TYPES {
        id as int
    } else {
        0
    }
}

/// The meshes and materials that the scene shares.
pub struct CommonAssets<M, T> {
    pub blocks: [M; 53],
    pub unselected: T,
    pub selected: T,
}

impl<M, T> CommonAssets<M, T> {
    /// The mesh for block type `id`, or the first mesh for an unknown type.
    pub fn block(&self, id: u8) -> (r: &M)
        ensures
            *r == self.blocks@[block_slot(id)],
    {
        if (id as usize) < BLOCK_TYPES {
            &self.blocks[id as usize]
        } else {
            &self.blocks[0]
        }
    }
}

} // verus!
