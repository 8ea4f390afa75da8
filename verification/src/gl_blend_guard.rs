//! Alpha blending switched on for a while, switched off again afterwards
//! unless it was on before.
use vstd::prelude::*;

verus! {

/// Remembers whether blending was on before the guard switched it on (with
/// the factors `SRC_ALPHA` and `ONE_MINUS_SRC_ALPHA`).
pub struct BlendGuard {
    original_blend: bool,
}

impl BlendGuard {
    pub closed spec fn spec_original_blend(&self) -> bool {
        self.original_blend
    }

    /// The guard for a context in which blending was on (`original_blend`)
    /// or off before it was switched on.
    pub fn new(original_blend: bool) -> (r: Self)
        ensures
            r.spec_original_blend() == original_blend,
    {
        BlendGuard { original_blend }
    }

    /// Blending is switched off when the guard goes exactly when it was off
    /// before.
    pub fn disables_on_drop(&self) -> (r: bool)
        ensures
            r == !self.spec_original_blend(),
    {
        !self.original_blend
    }
}

} // verus!
