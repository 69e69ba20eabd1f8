//! The ways in which a protocol run can fail.
use vstd::prelude::*;

verus! {

/// Why a phase refused to go on. Every failure ends the run: what was built
/// so far is to be thrown away, not used again.
#[derive(Clone, Copy, Debug, PartialEq, Eq, Structural)]
pub enum ProtocolError {
    /// A decommitment does not open the commitment sent before it.
    InvalidCommitment,
    /// A Paillier key comes without a valid proof that it was made correctly.
    InvalidKeyProof,
    /// A secret share does not fit the polynomial commitments sent with it.
    InvalidVssShare,
    /// A proof of knowledge of a discrete logarithm does not verify.
    InvalidDlogProof,
    /// A share conversion answer comes without valid proofs.
    InvalidMtAProof,
    /// The other party's long-term share disagrees with the key generation's
    /// polynomial commitments.
    ShareCommitmentMismatch,
    /// After a rotation the two public shares no longer add up to the joint
    /// public key.
    RotationMismatch,
    /// The combined signature shares do not make a valid signature.
    SignatureAssemblyError,
    /// Secret randomness of one signing session came up in another.
    NonceReuseViolation,
    /// A value does not have the shape that the protocol gives it.
    MalformedInput,
}

} // verus!
