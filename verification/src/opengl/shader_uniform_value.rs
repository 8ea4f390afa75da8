//! Values that can be stored into uniform variables.
use vstd::prelude::*;

verus! {

/// A value that can be stored into a uniform variable of a shader program.
pub trait UniformValue {
    fn set_uniform(&self, location: i32);
}

} // verus!
