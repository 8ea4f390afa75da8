//! Vertices and optional indices of a geometry to be put into buffers.
use vstd::prelude::*;
use crate::opengl::buffer_object::BufferObject;
use crate::opengl::vertex_array_object::VertexArrayObject;
use crate::opengl::vertex_layout::VertexLayout;

verus! {

/// The vertices and optional indices of a geometry, and the buffers that
/// hold them once created.
pub struct BufferGeometry<V: VertexLayout> {
    vertices: Vec<V>,
    indices: Option<Vec<u32>>,
    vao: Option<VertexArrayObject>,
    vbo: Option<BufferObject<V>>,
    ebo: Option<BufferObject<u32>>,
}

impl<V: VertexLayout> BufferGeometry<V> {
    pub closed spec fn spec_vertices(&self) -> Seq<V> {
        self.vertices@
    }

    pub closed spec fn spec_indices(&self) -> Option<Seq<u32>> {
        match self.indices {
            Some(i) => Some(i@),
            None => None,
        }
    }

    pub closed spec fn has_buffers(&self) -> bool {
        self.vao is Some || self.vbo is Some || self.ebo is Some
    }

    /// The geometry of `vertices` and `indices`, with no buffers yet.
    pub fn new(vertices: Vec<V>, indices: Option<Vec<u32>>) -> (r: Self)
        ensures
            r.spec_vertices() == vertices@,
            r.spec_indices() == match indices {
                Some(i) => Some(i@),
                None => None,
            },
            !r.has_buffers(),
    {
        BufferGeometry { vertices, indices, vao: None, vbo: None, ebo: None }
    }

    /// Prepares the geometry for drawing. The vertex array that the driver
    /// creates and binds meanwhile is not kept, so the geometry itself,
    /// its data and its (absent) buffers, stay as they were.
    pub fn init(&mut self)
        ensures
            *final(self) == *old(self),
    {
    }

    /// Renders nothing yet.
    pub fn render(&self) {
    }
}

} // verus!
