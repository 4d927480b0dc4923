use vstd::prelude::*;

verus! {

/// The number of texture slots of a sprite batch.
pub const TEXTURE_SLOTS: usize = 32;

/// The number of vertices a quad takes: two triangles.
pub const VERTICES_PER_QUAD: usize = 6;

/// Whether one more quad fits in a batch that holds `vertex_count` of at most
/// `max_vertices` vertices.
pub fn quad_fits(vertex_count: usize, max_vertices: usize) -> (fits: bool)
    ensures
        fits == (vertex_count + VERTICES_PER_QUAD <= max_vertices),
{
    vertex_count <= max_vertices && max_vertices - vertex_count >= VERTICES_PER_QUAD
}

/// The texture that each slot of the batch's texture array binds, given
/// `texture_count` textures: slot `i` binds texture `i`, and the slots past the
/// last texture, up to [`TEXTURE_SLOTS`], bind the first texture. With no texture
/// there is nothing to bind.
pub fn texture_slots(texture_count: usize) -> (slots: Vec<usize>)
    ensures
        texture_count == 0 ==> slots@.len() == 0,
        texture_count > 0 ==> slots@.len() == if texture_count < TEXTURE_SLOTS {
            TEXTURE_SLOTS
        } else {
            texture_count
        },
        forall|i: int| 0 <= i < slots@.len() ==> #[trigger] slots@[i] == if i < texture_count {
            i as usize
        } else {
            0usize
        },
{
    let mut slots: Vec<usize> = Vec::new();
    if texture_count == 0 {
        return slots;
    }
    let mut i: usize = 0;
    while i < texture_count
        invariant
            i <= texture_count,
            slots@.len() == i,
            forall|j: int| 0 <= j < i ==> #[trigger] slots@[j] == j as usize,
        decreases texture_count - i,
    {
        slots.push(i);
        i += 1;
    }
    while slots.len() < TEXTURE_SLOTS
        invariant
            texture_count > 0,
            texture_count <= slots@.len() <= if texture_count < TEXTURE_SLOTS {
                TEXTURE_SLOTS
            } else {
                texture_count
            },
            forall|j: int| 0 <= j < slots@.len() ==> #[trigger] slots@[j] == if j < texture_count {
                j as usize
            } else {
                0usize
            },
        decreases TEXTURE_SLOTS - slots@.len(),
    {
        slots.push(0);
    }
    slots
}

} // verus!
