//! Non-negative fractions held as a pair of integers.

use vstd::prelude::*;

verus! {

/// A non-negative fraction `numer / denom`.
///
/// The pipeline is configured with fractions (the overlap between
/// consecutive windows, the nucleus threshold, the temperature); holding
/// them as two integers keeps every computation on them exact.
#[derive(Clone, Copy, Debug, PartialEq, Eq, Structural)]
pub struct Ratio {
    pub numer: u32,
    pub denom: u32,
}

impl Ratio {
    /// A fraction is usable when its denominator is not zero.
    pub open spec fn wf(self) -> bool {
        self.denom > 0
    }

    /// Whether the fraction is `0`.
    pub open spec fn spec_is_zero(self) -> bool {
        self.numer == 0
    }

    /// Whether the fraction is strictly less than `1`.
    pub open spec fn spec_is_proper(self) -> bool {
        self.numer < self.denom
    }

    /// `n` times the fraction, rounded to the nearest integer, halves
    /// rounded up.
    pub open spec fn spec_scale(self, n: nat) -> nat {
        ((2 * n * self.numer + self.denom) / (2 * self.denom)) as nat
    }

    /// Builds `numer / denom`; `None` when `denom` is zero.
    pub fn new(numer: u32, denom: u32) -> (r: Option<Ratio>)
        ensures
            r == (if denom == 0 { None } else { Some(Ratio { numer, denom }) }),
    {
        if denom == 0 {
            None
        } else {
            Some(Ratio { numer, denom })
        }
    }

    /// Whether the fraction is `0`.
    pub fn is_zero(&self) -> (r: bool)
        ensures
            r == self.spec_is_zero(),
    {
        self.numer == 0
    }

    /// Whether the fraction is strictly less than `1`.
    pub fn is_proper(&self) -> (r: bool)
        ensures
            r == self.spec_is_proper(),
    {
        self.numer < self.denom
    }

    /// `n` times the fraction, rounded to the nearest integer, halves
    /// rounded up.
    pub fn scale(&self, n: usize) -> (r: u128)
        requires
            self.wf(),
        ensures
            r == self.spec_scale(n as nat),
    {
        let wide: u128 = n as u128;
        let numer: u128 = self.numer as u128;
        let denom: u128 = self.denom as u128;
        assert(wide * numer <= 0xFFFF_FFFF_FFFF_FFFF * 0xFFFF_FFFF) by (nonlinear_arith)
            requires
                wide <= 0xFFFF_FFFF_FFFF_FFFF,
                numer <= 0xFFFF_FFFF,
        ;
        assert(2 * (n as nat) * self.numer == 2 * (wide * numer)) by (nonlinear_arith)
            requires
                wide == n,
                numer == self.numer,
        ;
        let doubled: u128 = 2 * (wide * numer);
        (doubled + denom) / (2 * denom)
    }
}

} // verus!
