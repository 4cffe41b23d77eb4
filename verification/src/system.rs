use vstd::prelude::*;

verus! {

/// The plant of the physical-system lessons; its sensor response lives
/// with the code that can compute with floating point.
pub struct System {}

impl Default for System {
    /// The system has no state to pick.
    fn default() -> (s: Self)
        ensures
            s == (System {}),
    {
        Self {}
    }
}

} // verus!
