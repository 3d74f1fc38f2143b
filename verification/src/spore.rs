//! Edible pellets.

use crate::scalar::Scalar;
use vstd::prelude::*;

verus! {

/// Half the side of the square in which spores appear.
pub const SPORE_BOUND: u64 = 0x40A7_7000_0000_0000;

/// No spore is created with a smaller radius: five.
pub const MIN_SPORE_RADIUS: u64 = 0x4014_0000_0000_0000;

/// A stationary pellet. It is never changed after it was made, only replaced.
#[derive(Debug, PartialEq, Eq)]
pub struct Spore {
    pub id: String,
    pub x: Scalar,
    pub y: Scalar,
    pub radius: Scalar,
}

impl Clone for Spore {
    fn clone(&self) -> (s: Self)
        ensures
            s == *self,
    {
        Spore { id: self.id.clone(), x: self.x, y: self.y, radius: self.radius }
    }
}

impl Spore {
    /// Whether the spore lies in the arena: neither coordinate is further
    /// from zero than the bound.
    pub open spec fn in_arena(self) -> bool {
        self.x.spec_within(SPORE_BOUND) && self.y.spec_within(SPORE_BOUND)
    }

    /// A spore with the given identity at a drawn place, which lies in the
    /// arena, its drawn radius raised to the minimum where it is below it.
    pub fn random(id: String, x: Scalar, y: Scalar, radius: Scalar) -> (spore: Spore)
        requires
            x.spec_within(SPORE_BOUND),
            y.spec_within(SPORE_BOUND),
        ensures
            spore.in_arena(),
            spore == (Spore { id, x, y, radius: radius.spec_floor_at(Scalar { bits: MIN_SPORE_RADIUS }) }),
    {
        Spore { id, x, y, radius: radius.floor_at(Scalar { bits: MIN_SPORE_RADIUS }) }
    }
}

/// No spore is made with a radius below the minimum, whatever was drawn.
pub proof fn lemma_spore_radius_is_floored(radius: Scalar)
    ensures
        (Scalar { bits: MIN_SPORE_RADIUS }).spec_le(radius.spec_floor_at(Scalar { bits: MIN_SPORE_RADIUS })),
        !radius.spec_floor_at(Scalar { bits: MIN_SPORE_RADIUS }).is_nan(),
{
}

} // verus!
