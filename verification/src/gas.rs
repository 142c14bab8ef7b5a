//! Gas amounts: 256-bit unsigned integers held as four little-endian words.

use vstd::prelude::*;

verus! {

/// Two to the power 64: by how much a word outweighs the word below it.
pub open spec fn word_weight() -> nat {
    0x1_0000_0000_0000_0000
}

/// A 256-bit unsigned integer, least significant word first.
#[derive(Clone, Copy, Debug, PartialEq, Eq)]
pub struct U256(pub [u64; 4]);

impl View for U256 {
    type V = nat;

    /// The number that the four words stand for.
    open spec fn view(&self) -> nat {
        (self.0[0] as nat) + word_weight() * ((self.0[1] as nat) + word_weight() * ((self.0[2] as nat)
            + word_weight() * (self.0[3] as nat)))
    }
}

/// `>` of `primitive_types::U256`, which keeps its words little-endian as
/// this type does and orders by them from the most significant word down.
/// The contract claims that this is the order of the numbers that the words
/// stand for. Nothing of it is proved here.
#[verifier::external_body]
fn greater(a: &U256, b: &U256) -> (r: bool)
    ensures
        r == (a@ > b@),
{
    primitive_types::U256(a.0) > primitive_types::U256(b.0)
}

impl U256 {
    /// The integer with the value of `x`.
    pub fn from_u64(x: u64) -> (r: Self)
        ensures
            r@ == x,
            r.0@ == seq![x, 0u64, 0u64, 0u64],
    {
        U256([x, 0, 0, 0])
    }

    /// Whether `self` is strictly greater than `bound`.
    pub fn exceeds(&self, bound: &U256) -> (r: bool)
        ensures
            r == (self@ > bound@),
    {
        greater(self, bound)
    }
}

} // verus!
