//! Scale factors as exact fractions.
use crate::geometry::Size;
use vstd::prelude::*;

verus! {

/// The denominator of every scale factor: the display protocol reports
/// fractional scales in 120ths.
pub const SCALE_DENOMINATOR: i64 = 120;

/// A surface's scale factor, held exactly as a number of 120ths.
///
/// An integer factor `k` is `120 * k`; a fractional factor is stored as the
/// compositor sent it. A scale is integral when its numerator is a multiple
/// of 120.
#[derive(Clone, Copy, Debug, PartialEq, Eq, Structural)]
pub struct Scale {
    pub numerator: i64,
}

/// The physical length of `logical` pixels under a scale of
/// `numerator / 120`: the product rounded down, kept within `u32`.
pub open spec fn physical_length(numerator: int, logical: int) -> int {
    let exact = (logical * numerator) / 120;
    if exact < 0 {
        0
    } else if exact > u32::MAX {
        u32::MAX as int
    } else {
        exact
    }
}

impl Scale {
    /// The scale of one: a physical pixel per logical pixel.
    pub open spec fn one() -> Scale {
        Scale { numerator: 120 }
    }

    /// The scale of one.
    pub fn identity() -> (scale: Scale)
        ensures
            scale == Scale::one(),
    {
        Scale { numerator: 120 }
    }

    /// The scale that an integer factor stands for.
    pub open spec fn of_factor(factor: i32) -> Scale {
        Scale { numerator: (120 * factor) as i64 }
    }

    /// The scale that a number of 120ths stands for.
    pub open spec fn of_fraction(numerator: u32) -> Scale {
        Scale { numerator: numerator as i64 }
    }

    /// The scale of an integer factor.
    pub fn from_factor(factor: i32) -> (scale: Scale)
        ensures
            scale == Scale::of_factor(factor),
            scale.numerator == 120 * factor,
    {
        Scale { numerator: 120 * (factor as i64) }
    }

    /// The scale of a fractional factor given in 120ths.
    pub fn from_fraction(numerator: u32) -> (scale: Scale)
        ensures
            scale == Scale::of_fraction(numerator),
            scale.numerator == numerator,
    {
        Scale { numerator: numerator as i64 }
    }

    /// Whether the scale is a whole number.
    pub open spec fn integral(self) -> bool {
        self.numerator % 120 == 0
    }

    /// Whether the scale is a whole number.
    pub fn is_integral(&self) -> (integral: bool)
        ensures
            integral == self.integral(),
    {
        self.numerator % 120 == 0
    }

    /// The physical length of `logical` pixels under this scale.
    pub open spec fn scaled(self, logical: u32) -> u32 {
        physical_length(self.numerator as int, logical as int) as u32
    }

    /// The physical size of a logical size under this scale.
    pub open spec fn scaled_size(self, logical: Size) -> Size {
        Size { width: self.scaled(logical.width), height: self.scaled(logical.height) }
    }

    /// The physical length of `logical` pixels: `logical * scale`, rounded
    /// down. A scale below zero gives zero, and a product beyond `u32` gives
    /// `u32::MAX`.
    pub fn physical(&self, logical: u32) -> (length: u32)
        ensures
            length == self.scaled(logical),
            length as int == physical_length(self.numerator as int, logical as int),
    {
        if self.numerator <= 0 {
            assert(logical * self.numerator <= 0) by (nonlinear_arith)
                requires
                    logical >= 0,
                    self.numerator <= 0,
            ;
            return 0;
        }
        let n: u128 = self.numerator as u128;
        let l: u128 = logical as u128;
        assert(0 <= l * n <= 0xffff_ffff * 0x7fff_ffff_ffff_ffff) by (nonlinear_arith)
            requires
                0 <= l <= 0xffff_ffff,
                0 <= n <= 0x7fff_ffff_ffff_ffff,
        ;
        let exact: u128 = (l * n) / 120;
        if exact > 0xffff_ffff {
            u32::MAX
        } else {
            exact as u32
        }
    }

    /// The physical size of a logical size under this scale.
    pub fn physical_size(&self, logical: Size) -> (size: Size)
        ensures
            size == self.scaled_size(logical),
    {
        Size { width: self.physical(logical.width), height: self.physical(logical.height) }
    }
}

/// An integral scale maps every logical length to the exact product, as long
/// as that product fits.
pub proof fn lemma_integral_scale_is_exact(factor: i32, logical: u32)
    requires
        factor >= 0,
        logical * factor <= u32::MAX,
    ensures
        Scale::of_factor(factor).scaled(logical) == logical * factor,
{
    let n = 120 * factor;
    assert(logical * n == (logical * factor) * 120) by (nonlinear_arith)
        requires
            n == 120 * factor,
    ;
    assert(((logical * factor) * 120) / 120 == logical * factor) by (nonlinear_arith);
    assert(logical * factor >= 0) by (nonlinear_arith)
        requires
            logical >= 0,
            factor >= 0,
    ;
}

} // verus!
