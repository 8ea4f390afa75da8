//! Kinds of projections.
use vstd::prelude::*;

verus! {

#[derive(Clone, Copy, Debug, PartialEq, Eq, Structural)]
pub enum ProjectionType {
    Perspective,
    Orthographic,
}

} // verus!
