//! Vertex types that describe their own attribute layout.
use vstd::prelude::*;
use crate::opengl::vertex_attribute::{VertexAttribute, attribute_size};

verus! {

/// Total size of the first `n` attributes of `attrs`.
pub open spec fn layout_bytes(attrs: Seq<VertexAttribute>, n: int) -> nat
    decreases n,
{
    if n <= 0 {
        0
    } else {
        layout_bytes(attrs, n - 1) + attribute_size(attrs[n - 1])
    }
}

/// Sum of the sizes of `attributes`, reduced modulo the range of `usize`
/// (the sum of a `usize` iterator wraps when it overflows).
pub fn attributes_size(attributes: &Vec<VertexAttribute>) -> (r: usize)
    ensures
        r == layout_bytes(attributes@, attributes@.len() as int) % (usize::MAX as nat + 1),
{
    let m: u128 = usize::MAX as u128 + 1;
    let mut total: usize = 0;
    let mut i: usize = 0;
    while i < attributes.len()
        invariant
            i <= attributes@.len(),
            m == usize::MAX as nat + 1,
            total == layout_bytes(attributes@, i as int) % (usize::MAX as nat + 1),
        decreases attributes@.len() - i,
    {
        let size = attributes[i].calculate_size();
        proof {
            let a: int = layout_bytes(attributes@, i as int) as int;
            vstd::arithmetic::div_mod::lemma_add_mod_noop_right(size as int, a, m as int);
            vstd::arithmetic::div_mod::lemma_mod_bound((total as int + size as int), m as int);
        }
        total = ((total as u128 + size as u128) % m) as usize;
        i = i + 1;
    }
    total
}

/// A vertex type that knows the attributes it is made of.
pub trait VertexLayout {
    /// The attributes of one vertex, in order.
    fn attributes() -> Vec<VertexAttribute>;

    /// Size in bytes of one vertex: the sum of the sizes of the attributes
    /// `attributes` gives (reduced modulo the range of `usize`, as the sum of
    /// `usize` values wraps).
    fn layout_size() -> (r: usize)
        ensures
            exists|a: Vec<VertexAttribute>|
                #[trigger] call_ensures(Self::attributes, (), a) && r == layout_bytes(a@, a@.len() as int) % (usize::MAX as nat + 1),
    {
        let attributes = Self::attributes;
        let a = attributes();
        attributes_size(&a)
    }
}

/// Reasons a vertex layout cannot be set up.
#[derive(Debug)]
pub enum VertexLayoutError {
    InvalidVAOId,
    InvalidShaderId,
    InvalidNumberOfComponents,
    InvalidAttributeName(String),
    InvalidAttributeLocation(usize),
    InvalidLayoutName(String),
    DataTypeNotPresent,
    OpenGL(String),
}

} // verus!
