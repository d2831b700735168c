//! Creep body part types and their spawn costs.
use vstd::prelude::*;

verus! {

/// A body part type.
#[derive(Debug, PartialEq, Eq, Structural, Clone, Copy, Hash)]
pub enum Part {
    Move,
    Work,
    Carry,
    Attack,
    RangedAttack,
    Tough,
    Heal,
    Claim,
}

impl Part {
    /// Energy needed to spawn one part of this type.
    pub open spec fn spec_cost(self) -> u32 {
        match self {
            Part::Move => 50,
            Part::Work => 100,
            Part::Carry => 50,
            Part::Attack => 80,
            Part::RangedAttack => 150,
            Part::Tough => 10,
            Part::Heal => 250,
            Part::Claim => 600,
        }
    }

    /// Energy needed to spawn one part of this type.
    pub fn cost(self) -> (r: u32)
        ensures
            r == self.spec_cost(),
    {
        match self {
            Part::Move => 50,
            Part::Work => 100,
            Part::Carry => 50,
            Part::Attack => 80,
            Part::RangedAttack => 150,
            Part::Tough => 10,
            Part::Heal => 250,
            Part::Claim => 600,
        }
    }
}

} // verus!
