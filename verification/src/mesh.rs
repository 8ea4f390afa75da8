//! Errors of meshes, and the check on their vertex count.
use vstd::prelude::*;

verus! {

#[derive(Clone, Copy, Debug, PartialEq, Eq, Structural)]
pub enum MeshError {
    InvalidVertexCount,
}

impl MeshError {
    /// The error's message, as it is displayed.
    pub fn to_string(&self) -> (r: String)
        ensures
            r@ == "Invalid number of mesh vertices; must be divisible by three."@,
    {
        "Invalid number of mesh vertices; must be divisible by three.".to_owned()
    }
}

/// Mesh vertices come in triangles: their number must be divisible by three.
pub fn check_vertex_count(count: usize) -> (r: Result<(), MeshError>)
    ensures
        r is Ok <==> count % 3 == 0,
        r is Err ==> r == Err::<(), MeshError>(MeshError::InvalidVertexCount),
{
    if count % 3 != 0 {
        Err(MeshError::InvalidVertexCount)
    } else {
        Ok(())
    }
}

} // verus!
