use vstd::prelude::*;

verus! {

/// A signed fixed-point number with an 8-bit integer part and an 8-bit
/// fraction in 256ths.
#[derive(Clone, Copy, Debug, PartialEq, Eq, Structural)]
pub struct FixedF8 {
    integer: u8,
    fractional: u8,
    is_neg: bool,
}

impl FixedF8 {
    /// The value in 256ths.
    pub closed spec fn units(self) -> int {
        let magnitude = 256 * self.integer + self.fractional;
        if self.is_neg {
            -magnitude
        } else {
            magnitude
        }
    }

    /// The integer part.
    pub closed spec fn integer_part(self) -> u8 {
        self.integer
    }

    /// The fraction, in 256ths.
    pub closed spec fn fraction_part(self) -> u8 {
        self.fractional
    }

    /// Whether the sign is negative.
    pub closed spec fn negative(self) -> bool {
        self.is_neg
    }

    /// `integer + fractional / 256`, negated when `is_neg`.
    pub fn new(integer: u8, fractional: u8, is_neg: bool) -> (r: FixedF8)
        ensures
            r.integer_part() == integer,
            r.fraction_part() == fractional,
            r.negative() == is_neg,
            r.units() == if is_neg {
                -(256 * integer + fractional)
            } else {
                256 * integer + fractional
            },
    {
        FixedF8 { integer, fractional, is_neg }
    }

    /// The value in 256ths: multiplied by 256 it is exact.
    pub fn to_units(&self) -> (r: i32)
        ensures
            r == self.units(),
    {
        let magnitude: i32 = 256 * (self.integer as i32) + self.fractional as i32;
        if self.is_neg {
            -magnitude
        } else {
            magnitude
        }
    }
}

} // verus!
