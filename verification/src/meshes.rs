//! Meshes whose vertex data is given as raw bytes.
pub mod basic_mesh;
use vstd::prelude::*;

verus! {

/// A vertex that can be stored as its raw bytes.
pub trait DynamicVertex {
    fn as_bytes(&self) -> &[u8];
}

} // verus!
