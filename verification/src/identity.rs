//! Globally unique, opaque identifiers.
//!
//! An [`Identifier`] holds the 128 bits of a version-4 UUID drawn once at
//! creation and never changed afterwards.

use vstd::prelude::*;

verus! {

/// The hyphenated lowercase text form of the UUID whose big-endian value is
/// `bits`, as the `uuid` crate renders it.
pub uninterp spec fn uuid_text_of(bits: u128) -> Seq<char>;

/// Relies on `uuid::Uuid::new_v4`: a random 128-bit value with the
/// version nibble forced to 4 and the variant bits forced to `10`,
/// read back in big-endian order through `Uuid::as_u128`.
#[verifier::external_body]
fn fresh_uuid_bits() -> (r: u128)
    ensures
        (r >> 76) & 0xf == 4,
        (r >> 62) & 0x3 == 2,
{
    uuid::Uuid::new_v4().as_u128()
}

/// Relies on `uuid::Uuid::from_u128` and the `Display` impl of `Uuid`:
/// the hyphenated lowercase form, 36 characters, a pure function of the
/// 128-bit value.
#[verifier::external_body]
fn format_uuid_bits(bits: u128) -> (r: String)
    ensures
        r@ == uuid_text_of(bits),
        r@.len() == 36,
{
    uuid::Uuid::from_u128(bits).to_string()
}

/// An opaque, globally unique identifier: created once, never mutated,
/// orderable and renderable as text.
#[derive(Debug, Clone, Copy, PartialEq, Eq, PartialOrd, Ord, Hash, Structural)]
pub struct Identifier {
    bits: u128,
}

impl View for Identifier {
    type V = u128;

    closed spec fn view(&self) -> u128 {
        self.bits
    }
}

impl Identifier {
    /// Draws a fresh random identifier. The version and variant fields of
    /// the underlying UUID are fixed; everything else is random.
    pub fn new() -> (r: Identifier)
        ensures
            (r@ >> 76) & 0xf == 4,
            (r@ >> 62) & 0x3 == 2,
    {
        Identifier { bits: fresh_uuid_bits() }
    }

    /// Wraps an explicit 128-bit value, for callers that already hold one.
    pub fn from_bits(bits: u128) -> (r: Identifier)
        ensures
            r@ == bits,
    {
        Identifier { bits }
    }

    /// The identifier's 128-bit value.
    pub fn bits(&self) -> (r: u128)
        ensures
            r == self@,
    {
        self.bits
    }

    /// The hyphenated lowercase text form of the identifier.
    pub fn to_text(&self) -> (r: String)
        ensures
            r@ == uuid_text_of(self@),
            r@.len() == 36,
    {
        format_uuid_bits(self.bits)
    }
}

} // verus!
