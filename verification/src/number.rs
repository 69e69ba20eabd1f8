//! Numbers of any size, as `curv` reads them from bytes.
use vstd::prelude::*;
use crate::bytes::{be_nat, copy_bytes, is_zero_bytes, same_number};

verus! {

/// A number, held as bytes with the most significant first. Leading zero
/// bytes do not change the number. Its view is the number.
#[derive(Clone, Debug)]
pub struct BigNumber {
    pub bytes: Vec<u8>,
}

impl View for BigNumber {
    type V = nat;

    open spec fn view(&self) -> nat {
        be_nat(self.bytes@)
    }
}

impl BigNumber {
    /// The number that the bytes denote.
    pub fn from_bytes(bytes: Vec<u8>) -> (r: BigNumber)
        ensures
            r.bytes@ == bytes@,
    {
        BigNumber { bytes }
    }

    /// A copy of the number.
    pub fn duplicate(&self) -> (r: BigNumber)
        ensures
            r.bytes@ == self.bytes@,
    {
        BigNumber { bytes: copy_bytes(&self.bytes) }
    }

    /// Whether two numbers are the same, whatever zero bytes lead them.
    pub fn same(&self, other: &BigNumber) -> (r: bool)
        ensures
            r == (self@ == other@),
    {
        same_number(&self.bytes, &other.bytes)
    }

    /// Whether the number is zero.
    pub fn is_zero(&self) -> (r: bool)
        ensures
            r == (self@ == 0),
    {
        is_zero_bytes(&self.bytes)
    }
}

/// The numbers that a list of byte strings denotes.
pub open spec fn values(v: Seq<BigNumber>) -> Seq<nat> {
    v.map_values(|b: BigNumber| b@)
}

} // verus!
