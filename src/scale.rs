//! Map scales.
use vstd::prelude::*;

verus! {

/// Map scale
#[derive(Debug, Clone, Copy, PartialEq, Eq, Structural)]
pub enum Scale {
    /// 1:10_000
    S10_000,
    /// 1:15_000
    S15_000,
}

impl Scale {
    /// The scale's denominator: ground length per unit of paper length.
    pub open spec fn spec_denominator(self) -> u32 {
        match self {
            Scale::S10_000 => 10000,
            Scale::S15_000 => 15000,
        }
    }

    /// The scale's denominator: ground length per unit of paper length.
    pub fn denominator(&self) -> (r: u32)
        ensures
            r == self.spec_denominator(),
    {
        match self {
            Scale::S10_000 => 10000,
            Scale::S15_000 => 15000,
        }
    }
}

} // verus!
