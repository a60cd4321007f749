//! Single-precision scalars, carried as IEEE 754 bit patterns.
//!
//! The view layer never computes with a factor or a cutoff: it hands the
//! value through, or supplies a default where the record holds none. A
//! [`Scalar`] therefore keeps the 32 bits of the number and nothing else,
//! which lets every default be stated and proved exactly.

use vstd::prelude::*;

verus! {

/// The bit pattern of `0.5`.
pub const HALF_BITS: u32 = 0x3F00_0000;

/// The bit pattern of `1.0`.
pub const ONE_BITS: u32 = 0x3F80_0000;

/// A single-precision number, held as its IEEE 754 bit pattern.
#[derive(Clone, Copy, Debug, PartialEq, Eq, Structural)]
pub struct Scalar {
    /// The 32 bits of the number: sign, exponent, fraction.
    pub bits: u32,
}

impl Scalar {
    /// The scalar with the given bit pattern.
    pub fn from_bits(bits: u32) -> (s: Scalar)
        ensures
            s.bits == bits,
    {
        Scalar { bits }
    }

    /// The bit pattern of the scalar.
    pub fn to_bits(&self) -> (bits: u32)
        ensures
            bits == self.bits,
    {
        self.bits
    }

    /// The number `0.5`.
    pub open spec fn spec_half() -> Scalar {
        Scalar { bits: HALF_BITS }
    }

    /// The number `1.0`.
    pub open spec fn spec_one() -> Scalar {
        Scalar { bits: ONE_BITS }
    }

    /// The number `0.5`.
    #[verifier::when_used_as_spec(spec_half)]
    pub fn half() -> (s: Scalar)
        ensures
            s == Scalar::spec_half(),
            s.bits == 0x3F00_0000u32,
    {
        Scalar { bits: HALF_BITS }
    }

    /// The number `1.0`.
    #[verifier::when_used_as_spec(spec_one)]
    pub fn one() -> (s: Scalar)
        ensures
            s == Scalar::spec_one(),
            s.bits == 0x3F80_0000u32,
    {
        Scalar { bits: ONE_BITS }
    }

    /// The scalar in `value`, or `default` where there is none.
    pub open spec fn spec_or(value: Option<Scalar>, default: Scalar) -> Scalar {
        match value {
            Some(s) => s,
            None => default,
        }
    }

    /// The scalar in `value`, or `default` where there is none.
    #[verifier::when_used_as_spec(spec_or)]
    pub fn or(value: Option<Scalar>, default: Scalar) -> (s: Scalar)
        ensures
            s == Scalar::spec_or(value, default),
    {
        match value {
            Some(s) => s,
            None => default,
        }
    }
}

} // verus!
