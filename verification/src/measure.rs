//! Measures with a fraction, held in thousandths.

use vstd::prelude::*;

verus! {

/// A non-negative number held in thousandths: `Fixed { millis: 2500 }` is 2.5.
///
/// It serves for factors such as the ratio of a chart's width to its height,
/// and for lengths in pixels.
#[derive(Clone, Copy, Debug, PartialEq, Eq, Structural)]
pub struct Fixed {
    pub millis: u32,
}

/// `length` times `factor`, rounded down, and `u32::MAX` where that is larger.
pub open spec fn scaled(length: u32, factor: Fixed) -> u32 {
    let exact = (length as int * factor.millis as int) / 1000;
    if exact > u32::MAX {
        u32::MAX
    } else {
        exact as u32
    }
}

/// `length` divided by `factor`, rounded down; `u32::MAX` where that is
/// larger or the factor is zero.
pub open spec fn shrunk(length: u32, factor: Fixed) -> u32 {
    if factor.millis == 0 {
        u32::MAX
    } else {
        let exact = (length as int * 1000) / (factor.millis as int);
        if exact > u32::MAX {
            u32::MAX
        } else {
            exact as u32
        }
    }
}

/// The nearest whole number to `value`, a half rounded up.
pub open spec fn rounded(value: Fixed) -> u32 {
    ((value.millis as int + 500) / 1000) as u32
}

impl Fixed {
    /// The number of so many thousandths.
    pub fn from_millis(millis: u32) -> (value: Fixed)
        ensures
            value.millis == millis,
    {
        Fixed { millis }
    }

    /// The nearest whole number, a half rounded up.
    pub fn round(self) -> (whole: u32)
        ensures
            whole == rounded(self),
    {
        ((self.millis as u64 + 500) / 1000) as u32
    }

    /// `length` times this factor, rounded down and capped at `u32::MAX`.
    pub fn scale(self, length: u32) -> (product: u32)
        ensures
            product == scaled(length, self),
    {
        assert(length as int * self.millis as int <= 0xffff_ffff * 0xffff_ffff)
            by (nonlinear_arith)
            requires
                0 <= length as int <= 0xffff_ffff,
                0 <= self.millis as int <= 0xffff_ffff,
        ;
        let exact: u64 = (length as u64 * self.millis as u64) / 1000;
        if exact > u32::MAX as u64 {
            u32::MAX
        } else {
            exact as u32
        }
    }

    /// `length` divided by this factor, rounded down and capped at
    /// `u32::MAX`, which also stands for a division by zero.
    pub fn shrink(self, length: u32) -> (quotient: u32)
        ensures
            quotient == shrunk(length, self),
    {
        if self.millis == 0 {
            u32::MAX
        } else {
            let exact: u64 = (length as u64 * 1000) / (self.millis as u64);
            if exact > u32::MAX as u64 {
                u32::MAX
            } else {
                exact as u32
            }
        }
    }
}

} // verus!
