//! Hash commitments to points and numbers.
use vstd::prelude::*;
use curv::arithmetic::Converter;
use curv::cryptographic_primitives::commitments::hash_commitment::HashCommitment;
use curv::cryptographic_primitives::commitments::traits::Commitment;
use curv::BigInt;
use sha2::Sha256;
use crate::bytes::be_nat;
use crate::number::BigNumber;
use crate::point::Point;

verus! {

/// The commitment to a number under a blinding number, as
/// `HashCommitment::<Sha256>::create_commitment_with_user_defined_randomness`
/// of `curv` computes it.
pub uninterp spec fn hash_commitment(message: nat, blind: nat) -> nat;

/// Whether a commitment is the one to the given point under the given
/// blinding number. A point is committed to as the number that its
/// compressed form denotes.
pub open spec fn opens_to_point(com: nat, point: Seq<u8>, blind: nat) -> bool {
    com == hash_commitment(be_nat(point), blind)
}

/// `HashCommitment::<Sha256>::create_commitment_with_user_defined_randomness`
/// of `curv`.
#[verifier::external_body]
pub(crate) fn commit(message: &BigNumber, blind: &BigNumber) -> (r: BigNumber)
    ensures
        r@ == hash_commitment(message@, blind@),
{
    let m = BigInt::from_bytes(&message.bytes);
    let b = BigInt::from_bytes(&blind.bytes);
    BigNumber { bytes: HashCommitment::<Sha256>::create_commitment_with_user_defined_randomness(&m, &b).to_bytes() }
}

/// Whether the decommitment of a point opens the commitment.
pub fn point_commitment_opens(com: &BigNumber, point: &Point, blind: &BigNumber) -> (r: bool)
    ensures
        r == opens_to_point(com@, point@, blind@),
{
    let message = BigNumber { bytes: point.to_bytes() };
    let expected = commit(&message, blind);
    expected.same(com)
}

} // verus!
