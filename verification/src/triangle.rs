//! Triangle meshes.

use vstd::prelude::*;

verus! {

/// A two-dimensional vertex with a color.
///
/// Every number is the bit pattern of a single-precision value.
#[derive(Clone, Copy, Debug, PartialEq, Eq)]
pub struct Vertex2D {
    /// The vertex position, `[x, y]`.
    pub position: [u32; 2],
    /// The vertex color in linear RGBA.
    pub color: [u32; 4],
}

impl Vertex2D {
    /// Creates the vertex at `(x, y)` with the given linear color.
    pub fn new(x: u32, y: u32, color: [u32; 4]) -> (vertex: Vertex2D)
        ensures
            vertex.position@ == seq![x, y],
            vertex.color == color,
    {
        Vertex2D { position: [x, y], color }
    }
}

/// The greatest number of vertices, and of indices, that a mesh can hold:
/// the greatest number that an index can be.
pub const LIMIT: usize = 0xffff_ffff;

/// The positions, as pairs of bit patterns, of the vertices that `after`
/// holds behind those of `before`.
pub open spec fn added_positions(before: Seq<Vertex2D>, after: Seq<Vertex2D>) -> Seq<(u32, u32)> {
    Seq::new(
        (after.len() - before.len()) as nat,
        |k: int| (after[before.len() + k].position@[0], after[before.len() + k].position@[1]),
    )
}

/// The indices that `after` holds behind those of `before`, counted from
/// the first of the vertices that came with them, of which `held` were
/// held before.
pub open spec fn added_triangles(before: Seq<u32>, after: Seq<u32>, held: nat) -> Seq<u32> {
    Seq::new(
        (after.len() - before.len()) as nat,
        |k: int| (after[before.len() + k] - held) as u32,
    )
}

/// Whether `indices` describes whole triangles over `vertices`: the
/// indices come in threes and each of them names an existing vertex.
pub open spec fn well_formed(vertices: Seq<Vertex2D>, indices: Seq<u32>) -> bool {
    &&& indices.len() % 3 == 0
    &&& forall|i: int| 0 <= i < indices.len() ==> (#[trigger] indices[i]) < vertices.len()
}

/// A set of vertices and the indices that group them into triangles.
#[derive(Clone, Debug, PartialEq, Eq)]
pub struct Mesh2D {
    /// The vertices of the mesh.
    pub vertices: Vec<Vertex2D>,
    /// The list of vertex indices that defines the triangles of the mesh.
    ///
    /// Therefore, this list should always have a length that is a multiple
    /// of 3.
    pub indices: Vec<u32>,
}

impl Mesh2D {
    /// Whether the indices of the mesh describe whole triangles over its
    /// vertices.
    pub open spec fn well_formed(&self) -> bool {
        well_formed(self.vertices@, self.indices@)
    }
}

} // verus!
