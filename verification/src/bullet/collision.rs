use vstd::prelude::*;

verus! {

/// Whether a projectile is still airborne.
#[derive(Clone, Copy, Debug, PartialEq, Eq, Structural)]
pub enum Collision {
    Flying,
    Hit,
}

} // verus!
