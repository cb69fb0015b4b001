//! Numbers as they travel through a quote.

use vstd::prelude::*;

verus! {

/// A number carried by a quote.
///
/// Generated figures are exact decimals with two fractional digits and are
/// held as a count of hundredths. Figures taken from an upstream payload are
/// IEEE-754 doubles and are carried through bit for bit.
#[derive(Clone, Copy, Debug, PartialEq, Eq, Structural)]
pub enum Amount {
    /// `n` hundredths, that is the decimal `n / 100`.
    Hundredths(i128),
    /// The bit pattern of a double.
    Binary64(u64),
}

/// Whether `bits` is the pattern of a finite double: the eleven exponent
/// bits are not all set.
pub open spec fn binary64_is_finite(bits: u64) -> bool {
    (bits >> 52) & 0x7ff != 0x7ff
}

/// Executable form of [`binary64_is_finite`].
pub fn bits_are_finite(bits: u64) -> (r: bool)
    ensures
        r == binary64_is_finite(bits),
{
    (bits >> 52) & 0x7ff != 0x7ff
}

impl Amount {
    /// Whether the amount denotes a finite number.
    pub open spec fn finite(self) -> bool {
        match self {
            Amount::Hundredths(_) => true,
            Amount::Binary64(bits) => binary64_is_finite(bits),
        }
    }

    /// Executable form of [`Amount::finite`].
    pub fn is_finite(&self) -> (r: bool)
        ensures
            r == self.finite(),
    {
        match self {
            Amount::Hundredths(_) => true,
            Amount::Binary64(bits) => bits_are_finite(*bits),
        }
    }
}

} // verus!
