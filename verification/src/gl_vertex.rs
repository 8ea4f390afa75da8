//! Vertex types with a fixed attribute list, and vertex layouts bound to a
//! vertex array object.
use vstd::prelude::*;
use crate::gl_vertex_attribute::{VertexAttribute, VertexLayoutError, packed_size};

verus! {

/// Sum of the sizes of `attributes`, reduced modulo the range of `usize`
/// (the sum of a `usize` iterator wraps when it overflows).
pub fn total_attribute_size(attributes: &Vec<VertexAttribute>) -> (r: usize)
    ensures
        r == packed_size(attributes@, attributes@.len() as int) % (usize::MAX as nat + 1),
{
    let m: u128 = usize::MAX as u128 + 1;
    let mut total: usize = 0;
    let mut i: usize = 0;
    while i < attributes.len()
        invariant
            i <= attributes@.len(),
            m == usize::MAX as nat + 1,
            total == packed_size(attributes@, i as int) % (usize::MAX as nat + 1),
        decreases attributes@.len() - i,
    {
        let size = attributes[i].calculate_size();
        proof {
            let a: int = packed_size(attributes@, i as int) as int;
            vstd::arithmetic::div_mod::lemma_add_mod_noop_right(size as int, a, m as int);
            vstd::arithmetic::div_mod::lemma_mod_bound((total as int + size as int), m as int);
        }
        total = ((total as u128 + size as u128) % m) as usize;
        i = i + 1;
    }
    total
}

/// A vertex type that knows the attributes it is made of.
pub trait Vertex {
    /// The attributes of one vertex, in order.
    fn attributes() -> Vec<VertexAttribute>;

    /// Size in bytes of one vertex: the sum of the sizes of the attributes
    /// `attributes` gives (reduced modulo the range of `usize`, as the sum of
    /// `usize` values wraps).
    fn layout_size() -> (r: usize)
        ensures
            exists|a: Vec<VertexAttribute>|
                #[trigger] call_ensures(Self::attributes, (), a) && r == packed_size(a@, a@.len() as int) % (usize::MAX as nat + 1),
    {
        let attributes = Self::attributes;
        let a = attributes();
        total_attribute_size(&a)
    }
}

/// Attributes bound to a vertex array object.
pub struct VertexLayout {
    vao_id: u32,
    attributes: Vec<VertexAttribute>,
    is_setup: bool,
    shader_id: Option<u32>,
}

impl VertexLayout {
    pub closed spec fn spec_vao_id(&self) -> u32 {
        self.vao_id
    }

    /// A layout without attributes for the vertex array object `vao_id`,
    /// which must not be 0.
    pub fn new_with_vao_id(vao_id: u32) -> (r: Result<Self, VertexLayoutError>)
        ensures
            vao_id == 0 ==> r matches Err(VertexLayoutError::InvalidVAOId),
            vao_id != 0 ==> (r matches Ok(l) && l.spec_vao_id() == vao_id),
    {
        if vao_id == 0 {
            return Err(VertexLayoutError::InvalidVAOId);
        }
        Ok(VertexLayout { vao_id, attributes: Vec::new(), is_setup: false, shader_id: None })
    }

    pub fn vao_id(&self) -> (r: u32)
        ensures
            r == self.spec_vao_id(),
    {
        self.vao_id
    }
}

} // verus!
