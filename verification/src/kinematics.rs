use vstd::prelude::*;

verus! {

/// Inverse kinematics of the Bravo 7 arm; it holds no state yet.
#[derive(Debug, Clone, Copy, PartialEq, Eq, Structural)]
pub struct Bravo7InvKinematics {}

impl Bravo7InvKinematics {
    pub fn new() -> (kinematics: Self)
        ensures
            kinematics == (Bravo7InvKinematics {}),
    {
        Self {}
    }
}

} // verus!
