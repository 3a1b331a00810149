//! Exact decimal quantities for monetary values.

use vstd::prelude::*;

verus! {

/// A decimal quantity `mantissa * 10^(-scale)`, kept exact so that monetary
/// values such as prices suffer no binary rounding error.
#[derive(Clone, Copy, Debug, PartialEq, Eq, Structural)]
pub struct Decimal {
    pub mantissa: i64,
    pub scale: u32,
}

impl Decimal {
    /// The represented quantity is negative exactly when the mantissa is.
    pub open spec fn is_neg(self) -> bool {
        self.mantissa < 0
    }

    pub fn new(mantissa: i64, scale: u32) -> (d: Decimal)
        ensures
            d.mantissa == mantissa,
            d.scale == scale,
    {
        Decimal { mantissa, scale }
    }

    pub fn is_negative(&self) -> (r: bool)
        ensures
            r == self.is_neg(),
    {
        self.mantissa < 0
    }
}

} // verus!
