//! Components attached to scene objects.
use vstd::prelude::*;

verus! {

/// The shader and texture an object is drawn with, by name.
pub struct Material {
    pub shader_name: String,
    pub texture_name: String,
}

} // verus!
