//! A mesh drawn from one vertex buffer and an optional index buffer.
use vstd::prelude::*;

verus! {

/// The draw call a mesh is rendered with: indexed by its indices, or the
/// vertices in order, as triangles.
#[derive(Clone, Copy, Debug, PartialEq, Eq, Structural)]
pub enum DrawCall {
    Elements { count: i32 },
    Arrays { count: i32 },
}

/// A mesh: its vertex array, vertex buffer and index buffer objects, the
/// number of vertices and the indices.
pub struct BasicMesh {
    vao: u32,
    vbo: u32,
    ebo: u32,
    vertices: usize,
    indices: Vec<u32>,
}

impl BasicMesh {
    pub closed spec fn spec_indices(&self) -> Seq<u32> {
        self.indices@
    }

    pub closed spec fn spec_vertex_count(&self) -> usize {
        self.vertices
    }

    pub closed spec fn spec_buffers(&self) -> (u32, u32, u32) {
        (self.vao, self.vbo, self.ebo)
    }

    /// The mesh of `vertices` vertices stored in the vertex buffer `vbo` of
    /// the vertex array `vao`, without indices.
    pub fn new(vao: u32, vbo: u32, vertices: usize) -> (r: Self)
        ensures
            r.spec_buffers() == (vao, vbo, 0u32),
            r.spec_vertex_count() == vertices,
            r.spec_indices() == Seq::<u32>::empty(),
    {
        BasicMesh { vao, vbo, ebo: 0, vertices, indices: Vec::new() }
    }

    /// The vertex array object of the mesh.
    pub fn vertex_array(&self) -> (r: u32)
        ensures
            r == self.spec_buffers().0,
    {
        self.vao
    }

    /// The vertex buffer object of the mesh.
    pub fn vertex_buffer(&self) -> (r: u32)
        ensures
            r == self.spec_buffers().1,
    {
        self.vbo
    }

    /// The index buffer the indices go to (0 when none was created yet).
    pub fn index_buffer(&self) -> (r: u32)
        ensures
            r == self.spec_buffers().2,
    {
        self.ebo
    }

    /// Stores `indices`, kept in the index buffer `ebo`.
    pub fn add_indices(&mut self, ebo: u32, indices: Vec<u32>)
        ensures
            final(self).spec_indices() == indices@,
            final(self).spec_buffers() == (old(self).spec_buffers().0, old(self).spec_buffers().1, ebo),
            final(self).spec_vertex_count() == old(self).spec_vertex_count(),
    {
        self.ebo = ebo;
        self.indices = indices;
    }

    pub fn clear_indices(&mut self)
        ensures
            final(self).spec_indices() == Seq::<u32>::empty(),
            final(self).spec_buffers() == old(self).spec_buffers(),
            final(self).spec_vertex_count() == old(self).spec_vertex_count(),
    {
        self.indices.clear();
    }

    pub fn has_indices(&self) -> (r: bool)
        ensures
            r == (self.spec_indices().len() > 0),
    {
        self.indices.len() > 0
    }

    /// The draw call: the indices when there are any, the vertices otherwise.
    pub fn draw_call(&self) -> (r: DrawCall)
        ensures
            r == if self.spec_indices().len() > 0 {
                DrawCall::Elements { count: self.spec_indices().len() as i32 }
            } else {
                DrawCall::Arrays { count: self.spec_vertex_count() as i32 }
            },
    {
        if self.has_indices() {
            DrawCall::Elements { count: #[verifier::truncate] (self.indices.len() as i32) }
        } else {
            DrawCall::Arrays { count: #[verifier::truncate] (self.vertices as i32) }
        }
    }
}

} // verus!
