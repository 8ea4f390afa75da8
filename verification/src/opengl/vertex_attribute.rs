//! Vertex attributes with plain (not optional) stride, offset and
//! normalization settings.
use vstd::prelude::*;
use crate::gl_types::{VertexAttributeType, VertexDataType};
use vstd::std_specs::convert::FromSpecImpl;

verus! {

/// Description of one attribute of a vertex. A stride of 0 means "derive the
/// stride from the tightly packed layout".
#[derive(Debug)]
pub struct VertexAttribute {
    /// Optional name of the attribute, useful when querying by name in shader programs.
    pub name: Option<String>,
    pub components: u8,
    pub data_type: VertexDataType,
    pub normalized: bool,
    pub stride: i32,
    pub offset: u32,
}

/// Size in bytes of an attribute: its component size times its component count.
pub open spec fn attribute_size(a: VertexAttribute) -> nat {
    a.data_type.spec_size() * a.components as nat
}

impl Clone for VertexAttribute {
    fn clone(&self) -> (r: Self)
        ensures
            r == *self,
    {
        let name = match &self.name {
            Some(n) => Some(n.clone()),
            None => None,
        };
        VertexAttribute {
            name,
            components: self.components,
            data_type: self.data_type,
            normalized: self.normalized,
            stride: self.stride,
            offset: self.offset,
        }
    }
}

impl Default for VertexAttribute {
    fn default() -> (r: Self)
        ensures
            r == VertexAttribute::spec_default(),
    {
        VertexAttribute {
            name: None,
            components: 0,
            data_type: VertexDataType::Float,
            normalized: false,
            stride: 0,
            offset: 0,
        }
    }
}

impl VertexAttribute {
    /// No name, no components of type float, not normalized, stride and offset 0.
    pub open spec fn spec_default() -> VertexAttribute {
        VertexAttribute {
            name: None,
            components: 0,
            data_type: VertexDataType::Float,
            normalized: false,
            stride: 0,
            offset: 0,
        }
    }

    pub fn new(components: u8, data_type: VertexDataType) -> (r: Self)
        ensures
            r == (VertexAttribute { components, data_type, ..VertexAttribute::spec_default() }),
    {
        VertexAttribute { components, data_type, ..Self::default() }
    }

    /// Sets the name field of the instance, consuming and returning self for method chaining.
    pub fn name(self, name: Option<String>) -> (r: Self)
        ensures
            r == (VertexAttribute { name, ..self }),
    {
        VertexAttribute { name, ..self }
    }

    /// Sets the number of components (1 to 4 are valid values).
    pub fn components(self, components: u8) -> (r: Self)
        ensures
            r == (VertexAttribute { components, ..self }),
    {
        VertexAttribute { components, ..self }
    }

    pub fn data_type(self, data_type: VertexDataType) -> (r: Self)
        ensures
            r == (VertexAttribute { data_type, ..self }),
    {
        VertexAttribute { data_type, ..self }
    }

    pub fn normalized(self, normalized: bool) -> (r: Self)
        ensures
            r == (VertexAttribute { normalized, ..self }),
    {
        VertexAttribute { normalized, ..self }
    }

    pub fn stride(self, stride: i32) -> (r: Self)
        ensures
            r == (VertexAttribute { stride, ..self }),
    {
        VertexAttribute { stride, ..self }
    }

    pub fn offset(self, offset: u32) -> (r: Self)
        ensures
            r == (VertexAttribute { offset, ..self }),
    {
        VertexAttribute { offset, ..self }
    }

    /// Calculates the byte size of the attribute from its type and component count.
    pub fn calculate_size(&self) -> (r: usize)
        ensures
            r == attribute_size(*self),
    {
        self.data_type.size() * self.components as usize
    }
}

impl From<VertexAttributeType> for VertexAttribute {
    /// An unnamed, not normalized float attribute with the kind's component count.
    fn from(value: VertexAttributeType) -> (r: Self) {
        let components: u8 = match value {
            VertexAttributeType::Position => 3,
            VertexAttributeType::Position2D => 2,
            VertexAttributeType::Color => 4,
            VertexAttributeType::TexCoord => 2,
            VertexAttributeType::Normal => 3,
        };
        VertexAttribute { components, data_type: VertexDataType::Float, normalized: false, ..Self::default() }
    }
}

impl FromSpecImpl<VertexAttributeType> for VertexAttribute {
    open spec fn obeys_from_spec() -> bool {
        true
    }

    open spec fn from_spec(v: VertexAttributeType) -> VertexAttribute {
        VertexAttribute {
            components: v.spec_components(),
            data_type: VertexDataType::Float,
            normalized: false,
            ..VertexAttribute::spec_default()
        }
    }
}

} // verus!
