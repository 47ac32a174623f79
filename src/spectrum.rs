//! Spectral values as the transport rules read them.

use vstd::prelude::*;

verus! {

/// A spectral radiometric value, seen through what the rendering rules
/// decide on. The channel values themselves stay with the caller, which
/// computes them and tells this crate which case holds.
#[derive(Clone, Copy, Debug, PartialEq, Eq, Structural)]
pub enum Spectrum {
    /// Every channel is exactly zero.
    Black,
    /// Every channel is finite and non-negative, and one at least is not zero.
    Positive,
    /// Some channel is not a number, infinite or negative: a corrupted result.
    Invalid,
}

impl Spectrum {
    /// The exact-zero value.
    pub fn zero() -> (r: Spectrum)
        ensures
            r == Spectrum::Black,
    {
        Spectrum::Black
    }

    /// Sorts a value by the two facts the rules read of it: whether all its
    /// channels are finite and non-negative, and whether all are zero.
    pub fn classify(finite_non_negative: bool, all_zero: bool) -> (r: Spectrum)
        ensures
            !finite_non_negative ==> r == Spectrum::Invalid,
            finite_non_negative && all_zero ==> r == Spectrum::Black,
            finite_non_negative && !all_zero ==> r == Spectrum::Positive,
    {
        if !finite_non_negative {
            Spectrum::Invalid
        } else if all_zero {
            Spectrum::Black
        } else {
            Spectrum::Positive
        }
    }

    pub open spec fn spec_is_black(&self) -> bool {
        *self == Spectrum::Black
    }

    pub open spec fn spec_is_valid(&self) -> bool {
        *self != Spectrum::Invalid
    }

    /// Every channel is zero.
    #[verifier::when_used_as_spec(spec_is_black)]
    pub fn is_black(&self) -> (r: bool)
        ensures
            r == self.spec_is_black(),
    {
        match self {
            Spectrum::Black => true,
            _ => false,
        }
    }

    /// Every channel is finite and non-negative.
    #[verifier::when_used_as_spec(spec_is_valid)]
    pub fn is_valid(&self) -> (r: bool)
        ensures
            r == self.spec_is_valid(),
    {
        match self {
            Spectrum::Invalid => false,
            _ => true,
        }
    }
}

} // verus!
