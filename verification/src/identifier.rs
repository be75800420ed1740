//! Identifiers of list entries.

use vstd::prelude::*;

verus! {

/// The bits of a 128-bit token that hold the version and the variant.
pub const VERSION_VARIANT_MASK: u128 = 0x0000_0000_0000_F000_C000_0000_0000_0000u128;

/// What the masked bits read for a random (version 4, RFC 9562 variant) token.
pub const RANDOM_VERSION_VARIANT: u128 = 0x0000_0000_0000_4000_8000_0000_0000_0000u128;

/// Whether `bits` carries version 4 and the RFC 9562 variant.
pub open spec fn is_random_v4(bits: u128) -> bool {
    bits & VERSION_VARIANT_MASK == RANDOM_VERSION_VARIANT
}

/// An opaque, globally unique token that names one list entry.
///
/// Identifiers are only ever compared for equality; their bits carry no
/// order and no meaning for the list.
#[derive(Clone, Copy, Debug, PartialEq, Eq, Hash, Structural)]
pub struct Identifier {
    pub bits: u128,
}

/// Draws a fresh random token from `uuid::Uuid::new_v4` and returns its
/// 128 bits as `uuid::Uuid::as_u128` packs them.
///
/// Trusted: the generator takes 128 random bits, clears the version and
/// variant bits and sets them to version 4 and the RFC 9562 variant. That is
/// all that holds of every outcome, and all that is claimed here. The
/// generator aborts the process if the operating system cannot supply random
/// bytes.
#[verifier::external_body]
fn new_v4_bits() -> (bits: u128)
    ensures
        is_random_v4(bits),
{
    uuid::Uuid::new_v4().as_u128()
}

impl Identifier {
    /// The identifier with the given bits.
    pub fn from_u128(bits: u128) -> (id: Identifier)
        ensures
            id.bits == bits,
    {
        Identifier { bits }
    }

    /// The identifier's 128 bits.
    pub fn as_u128(&self) -> (bits: u128)
        ensures
            bits == self.bits,
    {
        self.bits
    }

    /// A fresh random identifier. It is marked as version 4, so it is neither
    /// all zeros nor all ones.
    pub fn new_v4() -> (id: Identifier)
        ensures
            is_random_v4(id.bits),
            id.bits != 0,
            id.bits != u128::MAX,
    {
        let bits: u128 = new_v4_bits();
        proof {
            lemma_random_v4_is_neither_nil_nor_max(bits);
        }
        Identifier { bits }
    }

    /// Whether every bit is zero.
    pub fn is_nil(&self) -> (nil: bool)
        ensures
            nil == (self.bits == 0),
    {
        self.bits == 0
    }

    /// Whether every bit is one.
    pub fn is_max(&self) -> (max: bool)
        ensures
            max == (self.bits == u128::MAX),
    {
        self.bits == u128::MAX
    }
}

/// A token marked as version 4 has a zero bit and a one bit among its marks,
/// so it is neither the all-zeros nor the all-ones token.
pub proof fn lemma_random_v4_is_neither_nil_nor_max(bits: u128)
    requires
        is_random_v4(bits),
    ensures
        bits != 0,
        bits != u128::MAX,
{
    assert(bits & 0x0000_0000_0000_F000_C000_0000_0000_0000u128
        == 0x0000_0000_0000_4000_8000_0000_0000_0000u128 ==> bits != 0 && bits
        != 0xFFFF_FFFF_FFFF_FFFF_FFFF_FFFF_FFFF_FFFFu128) by (bit_vector);
}

} // verus!
