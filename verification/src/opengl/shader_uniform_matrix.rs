//! Matrices that can be stored into uniform variables.
use vstd::prelude::*;

verus! {

/// A matrix that can be stored into a uniform variable of a shader program;
/// `transpose` tells whether it is transposed on the way.
pub trait UniformMatrix {
    fn set_uniform_matrix(&self, location: i32, transpose: bool);
}

} // verus!
