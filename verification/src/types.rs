//! The values that the protocol holds and sends.
use vstd::prelude::*;
use crate::number::BigNumber;
use crate::point::Point;
use crate::scalar::Scalar;

verus! {

/// The compressed forms of a list of points.
pub open spec fn encodings(v: Seq<Point>) -> Seq<Seq<u8>> {
    v.map_values(|p: Point| p@)
}

/// A Paillier decryption key: its two primes. Only key generation makes
/// one, and nothing but decryption reads it.
#[derive(Clone, Debug)]
pub struct PaillierSecretKey {
    pub(crate) p: BigNumber,
    pub(crate) q: BigNumber,
}

impl PaillierSecretKey {
    /// The two primes of the key.
    pub closed spec fn primes(&self) -> (nat, nat) {
        (self.p@, self.q@)
    }

    /// A copy of the key.
    pub fn duplicate(&self) -> (r: PaillierSecretKey)
        ensures
            r.primes() == self.primes(),
    {
        PaillierSecretKey { p: self.p.duplicate(), q: self.q.duplicate() }
    }
}

/// A Paillier public key: its modulus.
#[derive(Clone, Debug)]
pub struct PaillierPublicKey {
    pub n: BigNumber,
}

impl PaillierPublicKey {
    /// A copy of the key.
    pub fn duplicate(&self) -> (r: PaillierPublicKey)
        ensures
            r.n.bytes@ == self.n.bytes@,
    {
        PaillierPublicKey { n: self.n.duplicate() }
    }
}

/// A proof that a Paillier modulus was made correctly.
#[derive(Clone, Debug)]
pub struct CorrectKeyProof {
    pub sigma_vec: Vec<BigNumber>,
}

/// One party's material for a key generation or rotation run: its secret
/// share, the public point of that share, and a Paillier key pair.
#[derive(Clone, Debug)]
pub struct Keys {
    pub u_i: Scalar,
    pub y_i: Point,
    pub dk: PaillierSecretKey,
    pub ek: PaillierPublicKey,
    pub party_index: u16,
}

/// What a party broadcasts first: its Paillier key, the proof for it, and a
/// commitment to its public share.
#[derive(Clone, Debug)]
pub struct KeyGenBroadcast {
    pub e: PaillierPublicKey,
    pub com: BigNumber,
    pub correct_key_proof: CorrectKeyProof,
}

/// What opens the commitment of the first broadcast.
#[derive(Clone, Debug)]
pub struct KeyGenDecommit {
    pub blind_factor: BigNumber,
    pub y_i: Point,
}

/// The parameters of a secret sharing.
#[derive(Clone, Debug)]
pub struct ShamirSecretSharing {
    pub threshold: u16,
    pub share_count: u16,
}

/// The public side of a Feldman sharing: commitments to the coefficients of
/// the polynomial, the constant coefficient first.
#[derive(Clone, Debug)]
pub struct VerifiableSS {
    pub parameters: ShamirSecretSharing,
    pub commitments: Vec<Point>,
}

impl VerifiableSS {
    /// A copy of the sharing.
    pub fn duplicate(&self) -> (r: VerifiableSS)
        ensures
            r.parameters == self.parameters,
            encodings(r.commitments@) == encodings(self.commitments@),
    {
        let mut commitments: Vec<Point> = Vec::new();
        let mut i: usize = 0;
        while i < self.commitments.len()
            invariant
                i <= self.commitments.len(),
                commitments@.len() == i,
                forall|j: int| 0 <= j < i ==> commitments@[j]@ == self.commitments@[j]@,
            decreases self.commitments.len() - i,
        {
            commitments.push(self.commitments[i].duplicate());
            i += 1;
        }
        assert(encodings(commitments@) =~= encodings(self.commitments@));
        let parameters = ShamirSecretSharing {
            threshold: self.parameters.threshold,
            share_count: self.parameters.share_count,
        };
        VerifiableSS { parameters, commitments }
    }
}

/// What key generation leaves with a party: the joint public key and the
/// party's combined secret share.
#[derive(Clone, Debug)]
pub struct SharedKeys {
    pub y: Point,
    pub x_i: Scalar,
}

/// A proof of knowledge of the discrete logarithm of `pk`.
#[derive(Clone, Debug)]
pub struct DLogProof {
    pub pk: Point,
    pub pk_t_rand_commitment: Point,
    pub challenge_response: Scalar,
}

/// A proof that an ElGamal encryption in the exponent was made correctly.
#[derive(Clone, Debug)]
pub struct HomoELGamalProof {
    pub T: Point,
    pub A3: Point,
    pub z1: Scalar,
    pub z2: Scalar,
}

/// A party's long-term secrets: its first share, its combined share and its
/// Paillier decryption key.
#[derive(Clone, Debug)]
pub struct PrivateKeyMaterial {
    pub u_i: Scalar,
    pub x_i: Scalar,
    pub dk: PaillierSecretKey,
}

/// The joint public key with what both parties know about its shares.
#[derive(Clone, Debug)]
pub struct MasterKeyPublic {
    pub q: Point,
    pub vss_scheme_vec: Vec<VerifiableSS>,
    pub paillier_key_vec: Vec<PaillierPublicKey>,
}

/// The secrets of one signing session.
#[derive(Clone, Debug)]
pub struct SignSessionKeys {
    pub w_i: Scalar,
    pub g_w_i: Point,
    pub k_i: Scalar,
    pub gamma_i: Scalar,
    pub g_gamma_i: Point,
}

/// A commitment to the public point of a session's blinding value.
#[derive(Clone, Debug)]
pub struct SignBroadcastPhase1 {
    pub com: BigNumber,
}

/// What opens a `SignBroadcastPhase1`.
#[derive(Clone, Debug)]
pub struct SignDecommitPhase1 {
    pub blind_factor: BigNumber,
    pub g_gamma_i: Point,
}

/// The request of a share conversion: a Paillier encryption.
#[derive(Clone, Debug)]
pub struct MtaMessageA {
    pub c: BigNumber,
}

/// The answer of a share conversion.
#[derive(Clone, Debug)]
pub struct MtaMessageB {
    pub c: BigNumber,
    pub b_proof: DLogProof,
    pub beta_tag_proof: DLogProof,
}

/// A party's state over the last phases of a signing session.
#[derive(Clone, Debug)]
pub struct LocalSig {
    pub l_i: Scalar,
    pub rho_i: Scalar,
    pub R: Point,
    pub s_i: Scalar,
    pub m: BigNumber,
    pub y: Point,
}

/// The first commitment of the last phases.
#[derive(Clone, Debug)]
pub struct Phase5Commit1 {
    pub com: BigNumber,
}

/// The second commitment of the last phases.
#[derive(Clone, Debug)]
pub struct Phase5Commit2 {
    pub com: BigNumber,
}

/// What opens a `Phase5Commit1`.
#[derive(Clone, Debug)]
pub struct Phase5Decommit1 {
    pub V_i: Point,
    pub A_i: Point,
    pub B_i: Point,
    pub blind_factor: BigNumber,
}

/// What opens a `Phase5Commit2`.
#[derive(Clone, Debug)]
pub struct Phase5Decommit2 {
    pub u_i: Point,
    pub t_i: Point,
    pub blind_factor: BigNumber,
}

/// An ECDSA signature with its recovery id.
#[derive(Clone, Debug)]
pub struct Signature {
    pub r: Scalar,
    pub s: Scalar,
    pub recid: u8,
}

/// The value by which a rotation shifts the first party's share.
#[derive(Clone, Debug)]
pub struct Rotation {
    pub rotation: Scalar,
}

/// The public part of a key of the other two-party scheme.
#[derive(Clone, Debug)]
pub struct LindellPublic {
    pub paillier_pub: PaillierPublicKey,
    pub c_key: BigNumber,
}

/// The secret part of a key of the other two-party scheme.
#[derive(Clone, Debug)]
pub struct LindellPrivate {
    pub x2: Scalar,
}

/// The second party's key of the other two-party scheme, as far as the
/// import reads it.
#[derive(Clone, Debug)]
pub struct MasterKey2L {
    pub public: LindellPublic,
    pub private: LindellPrivate,
}

/// Key generation, first message.
#[derive(Clone, Debug)]
pub struct KeyGenMessage1 {
    pub bc_i: KeyGenBroadcast,
}

/// Key generation, second message.
#[derive(Clone, Debug)]
pub struct KeyGenMessage2 {
    pub decom_i: KeyGenDecommit,
}

/// Key generation, third message.
#[derive(Clone, Debug)]
pub struct KeyGenMessage3 {
    pub vss_scheme: VerifiableSS,
    pub secret_share: Scalar,
}

/// Key generation, fourth message.
#[derive(Clone, Debug)]
pub struct KeyGenMessage4 {
    pub dlog_proof: DLogProof,
}

/// The first message of a key generation that imports a key of the other
/// scheme.
#[derive(Clone, Debug)]
pub struct KeyGenMessage0Party1Transform {
    pub p1m1: KeyGenMessage1,
    pub message_b: MtaMessageB,
}

/// Signing, first message.
#[derive(Clone, Debug)]
pub struct SignMessage1 {
    pub com: SignBroadcastPhase1,
    pub m_a_k: MtaMessageA,
}

/// Signing, second message.
#[derive(Clone, Debug)]
pub struct SignMessage2 {
    pub m_b_gamma: MtaMessageB,
    pub m_b_w: MtaMessageB,
}

/// Signing, third message.
#[derive(Clone, Debug)]
pub struct SignMessage3 {
    pub delta: Scalar,
}

/// Signing, fourth message.
#[derive(Clone, Debug)]
pub struct SignMessage4 {
    pub decommit: SignDecommitPhase1,
}

/// Signing, fifth message.
#[derive(Clone, Debug)]
pub struct SignMessage5 {
    pub phase5_com: Phase5Commit1,
}

/// Signing, sixth message.
#[derive(Clone, Debug)]
pub struct SignMessage6 {
    pub phase_5a_decom: Phase5Decommit1,
    pub helgamal_proof: HomoELGamalProof,
    pub dlog_proof_rho: DLogProof,
}

/// Signing, seventh message.
#[derive(Clone, Debug)]
pub struct SignMessage7 {
    pub phase5_com2: Phase5Commit2,
}

/// Signing, eighth message.
#[derive(Clone, Debug)]
pub struct SignMessage8 {
    pub phase_5d_decom2: Phase5Decommit2,
}

/// Signing, ninth message.
#[derive(Clone, Debug)]
pub struct SignMessage9 {
    pub s_i: Scalar,
}

} // verus!
