//! The static geometry this renderer draws: one quad as two triangles.
//!
//! The vertex positions and colors are floating-point data owned by the
//! host; what matters to the draw call is fixed here: the index data, how
//! many indices one frame draws, and how the interleaved vertex attributes
//! are laid out (counted in floats; the host scales by the float size to
//! get byte strides and offsets).

use vstd::prelude::*;

verus! {

/// Floats per interleaved vertex: three position components followed by
/// three color components.
pub const FLOATS_PER_VERTEX: u32 = 6;

/// Indices one frame draws: the two triangles of the quad.
pub const QUAD_INDEX_COUNT: u32 = 6;

/// One vertex attribute of the interleaved layout: its shader location,
/// how many float components it has, and where in the vertex it starts.
#[derive(Clone, Copy, PartialEq, Eq, Structural, Debug)]
pub struct VertexAttrib {
    pub location: u32,
    pub components: u32,
    pub offset_floats: u32,
}

/// The index data of the quad: two triangles sharing an edge.
pub fn quad_indices() -> (v: Vec<u32>)
    ensures
        v@ == seq![0u32, 1u32, 2u32, 1u32, 2u32, 3u32],
        v@.len() == QUAD_INDEX_COUNT,
{
    let mut v: Vec<u32> = Vec::new();
    v.push(0);
    v.push(1);
    v.push(2);
    v.push(1);
    v.push(2);
    v.push(3);
    proof {
        assert(v@ =~= seq![0u32, 1u32, 2u32, 1u32, 2u32, 3u32]);
    }
    v
}

/// The interleaved vertex layout: position at location 0, the first three
/// floats of each vertex; color at location 1, the next three.
pub fn quad_vertex_layout() -> (v: Vec<VertexAttrib>)
    ensures
        v@ == seq![
            (VertexAttrib { location: 0u32, components: 3u32, offset_floats: 0u32 }),
            (VertexAttrib { location: 1u32, components: 3u32, offset_floats: 3u32 }),
        ],
        forall|i: int|
            0 <= i < v@.len() ==> v@[i].offset_floats + v@[i].components <= FLOATS_PER_VERTEX,
{
    let mut v: Vec<VertexAttrib> = Vec::new();
    v.push(VertexAttrib { location: 0, components: 3, offset_floats: 0 });
    v.push(VertexAttrib { location: 1, components: 3, offset_floats: 3 });
    proof {
        assert(v@ =~= seq![
            (VertexAttrib { location: 0u32, components: 3u32, offset_floats: 0u32 }),
            (VertexAttrib { location: 1u32, components: 3u32, offset_floats: 3u32 }),
        ]);
    }
    v
}

} // verus!
