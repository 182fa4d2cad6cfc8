//! The state of a medium and of its sleeve, and the state it was bought in.

use vstd::prelude::*;

verus! {

/// Whether an entry was bought new or second hand.
#[derive(Clone, Copy, Debug, PartialEq, Eq, Structural)]
pub enum BuyCondition {
    New,
    Used,
}

/// The grading of a medium or a sleeve, from best to worst, with `Generic` for
/// a plain replacement sleeve.
#[derive(Clone, Copy, Debug, PartialEq, Eq, Structural)]
pub enum Condition {
    Mint,
    NearMint,
    VeryGoodPlus,
    VeryGood,
    Good,
    Poor,
    Generic,
}

impl Condition {
    /// The place of a grading in the conventional order: 0 for the best.
    pub open spec fn spec_rank(self) -> nat {
        match self {
            Condition::Mint => 0,
            Condition::NearMint => 1,
            Condition::VeryGoodPlus => 2,
            Condition::VeryGood => 3,
            Condition::Good => 4,
            Condition::Poor => 5,
            Condition::Generic => 6,
        }
    }

    /// The place of a grading in the conventional order: 0 for the best.
    pub fn rank(self) -> (r: u8)
        ensures
            r == self.spec_rank(),
    {
        match self {
            Condition::Mint => 0,
            Condition::NearMint => 1,
            Condition::VeryGoodPlus => 2,
            Condition::VeryGood => 3,
            Condition::Good => 4,
            Condition::Poor => 5,
            Condition::Generic => 6,
        }
    }
}

} // verus!
