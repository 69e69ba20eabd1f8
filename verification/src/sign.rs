//! Interactive signing: nine messages from each party.
use vstd::prelude::*;
use crate::bytes::all_zero;
use crate::commitment::opens_to_point;
use crate::error::ProtocolError;
use crate::keygen_calls::dlog_proof_valid;
use crate::master_key::MasterKey1;
use crate::number::BigNumber;
use crate::point::{ec_add, ec_mul, generator_bytes, point_add, point_mul, x_coordinate, Point};
use crate::scalar::{group_order, scalar_add, Scalar};
use crate::sign_calls::{
    broadcast_sign_keys, combine_signature, commitments_to_shares, create_sign_keys, delta_share,
    ecdsa_accepts, elgamal_accepts, invert_delta_sum, local_signature, low_s, mta_alpha,
    mta_answer, mta_answer_ciphertext, mta_request, mta_share, negated, nonce_share,
    paillier_encrypt, phase5_check, phase5_commit,
    phase5_residue, phase5_reveal, phase5_sum_cancels, points_commitment, reduced,
    share_commitment, sigma_share, update_commitment, verify_signature,
};
use crate::types::{
    encodings, DLogProof, HomoELGamalProof, LocalSig, MasterKeyPublic, MtaMessageB,
    PaillierSecretKey,
    Phase5Commit1, Phase5Decommit1, Phase5Decommit2, SignDecommitPhase1, SignMessage1,
    SignMessage2, SignMessage3, SignMessage4, SignMessage5, SignMessage6, SignMessage7,
    SignMessage8, SignMessage9, SignSessionKeys, Signature,
};

verus! {

/// Whether session keys belong to the combined share `x_i` of the first
/// party: `w_i` is the share taken by the party's Lagrange coefficient among
/// the two parties, which is two, the public points belong to their secrets,
/// and neither `k_i` nor `gamma_i` is zero.
pub open spec fn sign_keys_fit(k: SignSessionKeys, x_i: nat) -> bool {
    &&& k.w_i@ == (2 * x_i) % group_order()
    &&& k.g_w_i@ == ec_mul(generator_bytes(), k.w_i@)
    &&& k.g_gamma_i@ == ec_mul(generator_bytes(), k.gamma_i@)
    &&& k.gamma_i@ != 0
    &&& k.k_i@ != 0
}

/// Whether the ciphertext is an encryption of `m` under the modulus `n`.
pub open spec fn encrypts(c: nat, n: nat, m: nat) -> bool {
    exists|rho: nat| c == #[trigger] paillier_encrypt(n, m, rho)
}

/// Whether an answer of a share conversion proves knowledge of `b` and of the
/// negation of the share `beta` that stayed with its maker.
pub open spec fn answer_fits(m: MtaMessageB, b: nat, beta: nat) -> bool {
    &&& m.b_proof.pk@ == ec_mul(generator_bytes(), b)
    &&& m.beta_tag_proof.pk@ == ec_mul(generator_bytes(), negated(beta))
}

/// Whether an answer was made for `b` under the Paillier modulus `n` against
/// the request `request`, and left the share `beta` with its maker: the
/// proofs fit, the ciphertext is the answer's for some two values drawn, and
/// `beta` is the negation of the first of them.
pub open spec fn answer_made(m: MtaMessageB, n: nat, request: nat, b: nat, beta: nat) -> bool {
    &&& answer_fits(m, b, beta)
    &&& exists|beta_tag: nat, randomness: nat|
        m.c@ == #[trigger] mta_answer_ciphertext(n, request, b, beta_tag, randomness) && beta == negated(
            beta_tag % group_order(),
        )
}

/// The share that an answer leaves with the party that asked with `a` and
/// holds the decryption key, if it leaves one: the share read from the
/// answer's ciphertext, given exactly when both proofs of the answer verify
/// and the answer's two public points, the first taken `a` times, add up to
/// the public point of that share.
pub open spec fn answer_share(m: MtaMessageB, dk: PaillierSecretKey, a: nat) -> Option<nat> {
    let alpha = mta_share(dk.primes().0, dk.primes().1, m.c@);
    if dlog_proof_valid(m.b_proof) && dlog_proof_valid(m.beta_tag_proof) && ec_add(
        ec_mul(m.b_proof.pk@, a),
        m.beta_tag_proof.pk@,
    ) == ec_mul(generator_bytes(), alpha) {
        Some(alpha)
    } else {
        None
    }
}

/// The number of a share, if there is one.
pub open spec fn share_value(share: Option<Scalar>) -> Option<nat> {
    match share {
        Some(s) => Some(s@),
        None => None,
    }
}

/// What the key generation's sharings commit to for the second party's
/// `w`: the sum of the two sharings' commitments to its share, taken by its
/// Lagrange coefficient among the two parties, which is minus one.
pub open spec fn counterparty_w_commitment(public: MasterKeyPublic) -> Seq<u8> {
    ec_mul(
        ec_add(
            share_commitment(encodings(public.vss_scheme_vec@[0].commitments@), 2),
            share_commitment(encodings(public.vss_scheme_vec@[1].commitments@), 2),
        ),
        (group_order() - 1) as nat,
    )
}

/// Whether the point that the other party's second answer proves knowledge
/// for is the one that the sharings commit to.
pub open spec fn counterparty_w_committed(m: SignMessage2, public: MasterKeyPublic) -> bool {
    m.m_b_w.b_proof.pk@ == counterparty_w_commitment(public)
}

/// The sum of the two parties' `delta` shares.
pub open spec fn delta_sum(m1: SignMessage3, m2: SignMessage3) -> nat {
    (m1.delta@ + m2.delta@) % group_order()
}

/// Whether `r` is what the third message comes to, given the shares that the
/// two answers left, if any, and whether the other party's `w` is the one
/// that the sharings commit to. The answers are judged first.
pub open spec fn third_message_outcome(
    k: SignSessionKeys,
    alpha: Option<nat>,
    miu: Option<nat>,
    committed: bool,
    beta: Scalar,
    ni: Scalar,
    r: Result<(SignMessage3, Scalar), ProtocolError>,
) -> bool {
    if alpha.is_none() || miu.is_none() {
        r == Err::<(SignMessage3, Scalar), _>(ProtocolError::InvalidMtAProof)
    } else if !committed {
        r == Err::<(SignMessage3, Scalar), _>(ProtocolError::ShareCommitmentMismatch)
    } else {
        &&& r.is_ok()
        &&& r.unwrap().0.delta@ == (k.k_i@ * k.gamma_i@ + alpha.unwrap() + beta@) % group_order()
        &&& r.unwrap().1@ == (k.k_i@ * k.w_i@ + miu.unwrap() + ni@) % group_order()
    }
}

/// Whether `i` is the inverse of `x` modulo the group order.
pub open spec fn is_inverse(i: nat, x: nat) -> bool {
    (i * x) % group_order() == 1
}

/// The nonce point of a session: both parties' blinding points, each taken
/// by the inverse of `delta`, added up.
pub open spec fn nonce_point(delta_inv: nat, own: Seq<u8>, other: Seq<u8>) -> Seq<u8> {
    ec_add(ec_mul(other, delta_inv), ec_mul(own, delta_inv))
}

/// Whether the other party's decommitment of its blinding point fits what it
/// sent before: the point is the one that its answer proved knowledge for,
/// and the decommitment opens its first commitment.
pub open spec fn blinding_point_opens(m1: SignMessage1, m2: SignMessage2, m4: SignMessage4) -> bool {
    m2.m_b_gamma.b_proof.pk@ == m4.decommit.g_gamma_i@ && opens_to_point(
        m1.com.com@,
        m4.decommit.g_gamma_i@,
        m4.decommit.blind_factor@,
    )
}

/// Whether the first reveal of the last phases belongs to the local
/// signature: `V_i = s_i R + l_i G`, `A_i = rho_i G`, `B_i = l_i rho_i G`,
/// the commitment is one to the three, and the proof of knowledge is for
/// `A_i`.
pub open spec fn first_reveal_fits(s: LocalSig, c: Phase5Commit1, d: Phase5Decommit1, p: DLogProof) -> bool {
    &&& d.V_i@ == ec_add(ec_mul(s.R@, s.s_i@), ec_mul(generator_bytes(), s.l_i@))
    &&& d.A_i@ == ec_mul(generator_bytes(), s.rho_i@)
    &&& d.B_i@ == ec_mul(generator_bytes(), (s.l_i@ * s.rho_i@) % group_order())
    &&& c.com@ == points_commitment(seq![d.V_i@, d.A_i@, d.B_i@], d.blind_factor@)
    &&& p.pk@ == d.A_i@
    &&& dlog_proof_valid(p)
}

/// Whether the local signature is the one of this session: it holds the
/// nonce point, the message and the joint public key, and the share
/// `s_i = m k_i + r sigma_i`, where `r` is the nonce point's x coordinate.
pub open spec fn local_signature_fits(s: LocalSig, k_i: nat, m: nat, nonce: Seq<u8>, sigma: nat, q: Seq<u8>) -> bool {
    &&& s.R@ == nonce
    &&& s.y@ == q
    &&& s.m@ == m
    &&& s.s_i@ == (reduced(m) * k_i + reduced(x_coordinate(nonce)) * sigma) % group_order()
    &&& s.l_i@ != 0
    &&& s.rho_i@ != 0
}

/// Whether `r` is what the fifth message comes to for the nonce point
/// `nonce`: a nonce point at infinity is refused; otherwise the local
/// signature is the session's, the first reveal belongs to it, and both
/// proofs that go with the reveal verify.
pub open spec fn fifth_message_outcome(
    nonce: Seq<u8>,
    k_i: nat,
    m: nat,
    sigma: nat,
    q: Seq<u8>,
    r: Result<(SignMessage5, Phase5Decommit1, HomoELGamalProof, DLogProof, LocalSig, Point), ProtocolError>,
) -> bool {
    if all_zero(nonce) {
        r == Err::<(SignMessage5, Phase5Decommit1, HomoELGamalProof, DLogProof, LocalSig, Point), _>(
            ProtocolError::SignatureAssemblyError,
        )
    } else {
        &&& r.is_ok()
        &&& r.unwrap().5@ == nonce
        &&& local_signature_fits(r.unwrap().4, k_i, m, nonce, sigma, q)
        &&& first_reveal_fits(r.unwrap().4, r.unwrap().0.phase5_com, r.unwrap().1, r.unwrap().3)
        &&& elgamal_accepts(
            r.unwrap().2.T@,
            r.unwrap().2.A3@,
            r.unwrap().2.z1@,
            r.unwrap().2.z2@,
            r.unwrap().1.A_i@,
            nonce,
            generator_bytes(),
            r.unwrap().1.V_i@,
            r.unwrap().1.B_i@,
        )
    }
}

/// Whether the other party's first reveal is accepted: it opens the
/// commitment, and both proofs that come with it verify.
pub open spec fn first_reveal_accepted(m5: SignMessage5, m6: SignMessage6, nonce: Seq<u8>) -> bool {
    &&& m5.phase5_com.com@ == points_commitment(
        seq![m6.phase_5a_decom.V_i@, m6.phase_5a_decom.A_i@, m6.phase_5a_decom.B_i@],
        m6.phase_5a_decom.blind_factor@,
    )
    &&& elgamal_accepts(
        m6.helgamal_proof.T@,
        m6.helgamal_proof.A3@,
        m6.helgamal_proof.z1@,
        m6.helgamal_proof.z2@,
        m6.phase_5a_decom.A_i@,
        nonce,
        generator_bytes(),
        m6.phase_5a_decom.V_i@,
        m6.phase_5a_decom.B_i@,
    )
    &&& dlog_proof_valid(m6.dlog_proof_rho)
}

/// Whether a second reveal opens its commitment.
pub open spec fn second_reveal_opens(m7: SignMessage7, d: Phase5Decommit2) -> bool {
    m7.phase5_com2.com@ == points_commitment(seq![d.u_i@, d.t_i@], d.blind_factor@)
}

/// The signature that two shares make with a nonce point.
pub open spec fn signature_values(s: LocalSig, other: nat) -> (nat, nat) {
    (reduced(x_coordinate(s.R@)), low_s((s.s_i@ + other) % group_order()))
}

/// Whether `r` is what the first message comes to for the key: it fails with
/// `MalformedInput` exactly when the key's public part is not well shaped;
/// otherwise the session's keys fit the key's combined share, the
/// decommitment holds the public point of `gamma_i` and opens the commitment,
/// and the request is an encryption of `k_i` under this party's Paillier key.
pub open spec fn sign_first_result(
    key: MasterKey1,
    r: Result<(SignMessage1, SignDecommitPhase1, SignSessionKeys), ProtocolError>,
) -> bool {
    &&& r.is_ok() == key.public.well_shaped()
    &&& r.is_err() ==> r->Err_0 == ProtocolError::MalformedInput
    &&& r.is_ok() ==> {
        let (m, d, k) = r.unwrap();
        &&& sign_keys_fit(k, key.private.x_i@)
        &&& d.g_gamma_i@ == k.g_gamma_i@
        &&& opens_to_point(m.com.com@, d.g_gamma_i@, d.blind_factor@)
        &&& encrypts(m.m_a_k.c@, key.public.paillier_key_vec@[0].n@, k.k_i@)
    }
}

/// Whether `r` is what the second message comes to: it fails with
/// `MalformedInput` exactly when the key's public part is not well shaped;
/// otherwise both answers are made under the other party's Paillier key
/// against its request, the first for `gamma_i` and the second for `w_i`, and
/// leave the shares `beta` and `ni` here.
pub open spec fn sign_second_result(
    key: MasterKey1,
    m1: SignMessage1,
    k: SignSessionKeys,
    r: Result<(SignMessage2, Scalar, Scalar), ProtocolError>,
) -> bool {
    &&& r.is_ok() == key.public.well_shaped()
    &&& r.is_err() ==> r->Err_0 == ProtocolError::MalformedInput
    &&& r.is_ok() ==> {
        let (m, beta, ni) = r.unwrap();
        &&& answer_made(m.m_b_gamma, key.public.paillier_key_vec@[1].n@, m1.m_a_k.c@, k.gamma_i@, beta@)
        &&& answer_made(m.m_b_w, key.public.paillier_key_vec@[1].n@, m1.m_a_k.c@, k.w_i@, ni@)
    }
}

/// Whether `r` is what the third message comes to: `MalformedInput` for a
/// key whose public part is not well shaped; otherwise the outcome of
/// `conclude_third_message` for the shares that the two answers leave with
/// this party, which asked with `k_i` and holds the decryption key.
pub open spec fn sign_third_result(
    key: MasterKey1,
    m2: SignMessage2,
    k: SignSessionKeys,
    beta: Scalar,
    ni: Scalar,
    r: Result<(SignMessage3, Scalar), ProtocolError>,
) -> bool {
    if !key.public.well_shaped() {
        r == Err::<(SignMessage3, Scalar), _>(ProtocolError::MalformedInput)
    } else {
        third_message_outcome(
            k,
            answer_share(m2.m_b_gamma, key.private.dk, k.k_i@),
            answer_share(m2.m_b_w, key.private.dk, k.k_i@),
            counterparty_w_committed(m2, key.public),
            beta,
            ni,
            r,
        )
    }
}

/// Whether `r` is what the fifth message comes to: `SignatureAssemblyError`
/// when the two `delta` shares add up to zero; else `InvalidCommitment` when
/// the other party's blinding point does not fit what it sent before; else
/// the outcome for the nonce point made with the inverse of the sum.
pub open spec fn sign_fifth_result(
    key: MasterKey1,
    message: BigNumber,
    sigma: Scalar,
    k: SignSessionKeys,
    own4: SignMessage4,
    own3: SignMessage3,
    other3: SignMessage3,
    other4: SignMessage4,
    other2: SignMessage2,
    other1: SignMessage1,
    r: Result<(SignMessage5, Phase5Decommit1, HomoELGamalProof, DLogProof, LocalSig, Point), ProtocolError>,
) -> bool {
    if delta_sum(own3, other3) == 0 {
        r == Err::<(SignMessage5, Phase5Decommit1, HomoELGamalProof, DLogProof, LocalSig, Point), _>(
            ProtocolError::SignatureAssemblyError,
        )
    } else if !blinding_point_opens(other1, other2, other4) {
        r == Err::<(SignMessage5, Phase5Decommit1, HomoELGamalProof, DLogProof, LocalSig, Point), _>(
            ProtocolError::InvalidCommitment,
        )
    } else {
        exists|delta_inv: nat| #[trigger]
            is_inverse(delta_inv, delta_sum(own3, other3)) && fifth_message_outcome(
                nonce_point(delta_inv, own4.decommit.g_gamma_i@, other4.decommit.g_gamma_i@),
                k.k_i@,
                message@,
                sigma@,
                key.public.q@,
                r,
            )
    }
}

/// Whether `r` is what the seventh message comes to:
/// `SignatureAssemblyError` when the local signature's nonce point is the
/// point at infinity; else `InvalidCommitment` when the other party's first
/// reveal is not accepted; otherwise the second reveal, with a commitment
/// that it opens.
pub open spec fn sign_seventh_result(
    own6: SignMessage6,
    other6: SignMessage6,
    other5: SignMessage5,
    s: LocalSig,
    nonce: Point,
    r: Result<(SignMessage7, Phase5Decommit2), ProtocolError>,
) -> bool {
    if all_zero(s.R@) {
        r == Err::<(SignMessage7, Phase5Decommit2), _>(ProtocolError::SignatureAssemblyError)
    } else if !first_reveal_accepted(other5, other6, nonce@) {
        r == Err::<(SignMessage7, Phase5Decommit2), _>(ProtocolError::InvalidCommitment)
    } else {
        &&& r.is_ok()
        &&& second_reveal_opens(r.unwrap().0, r.unwrap().1)
        &&& r.unwrap().1.t_i@ == ec_mul(other6.phase_5a_decom.A_i@, s.l_i@)
        &&& r.unwrap().1.u_i@ == ec_mul(
            phase5_residue(s, own6.phase_5a_decom.V_i@, other6.phase_5a_decom.V_i@),
            s.rho_i@,
        )
    }
}

/// Whether `r` is what the ninth message comes to: `InvalidCommitment` when
/// a second reveal does not open its commitment; else
/// `SignatureAssemblyError` when the reveals of the two parties do not
/// cancel; otherwise the message with the local signature's share.
pub open spec fn sign_ninth_result(
    own6: SignMessage6,
    other6: SignMessage6,
    own7: SignMessage7,
    other7: SignMessage7,
    own8: SignMessage8,
    other8: SignMessage8,
    s: LocalSig,
    r: Result<SignMessage9, ProtocolError>,
) -> bool {
    if !(second_reveal_opens(own7, own8.phase_5d_decom2) && second_reveal_opens(other7, other8.phase_5d_decom2)) {
        r == Err::<SignMessage9, _>(ProtocolError::InvalidCommitment)
    } else if !phase5_sum_cancels(
        own8.phase_5d_decom2,
        other8.phase_5d_decom2,
        own6.phase_5a_decom,
        other6.phase_5a_decom,
    ) {
        r == Err::<SignMessage9, _>(ProtocolError::SignatureAssemblyError)
    } else {
        r.is_ok() && r.unwrap().s_i@ == s.s_i@
    }
}

/// Whether `r` is what `output_signature` comes to: the signature of the two
/// shares and the nonce point, given exactly when the nonce point is not the
/// point at infinity and the signature verifies on the local signature's
/// message for its public key; otherwise `SignatureAssemblyError`.
pub open spec fn signature_result(other9: SignMessage9, s: LocalSig, r: Result<Signature, ProtocolError>) -> bool {
    &&& r.is_ok() == (!all_zero(s.R@) && ecdsa_accepts(
        s.y@,
        s.m@,
        signature_values(s, other9.s_i@).0,
        signature_values(s, other9.s_i@).1,
    ))
    &&& r.is_err() ==> r->Err_0 == ProtocolError::SignatureAssemblyError
    &&& r.is_ok() ==> (r.unwrap().r@, r.unwrap().s@) == signature_values(s, other9.s_i@) && r.unwrap().recid <= 1
        && ecdsa_accepts(s.y@, s.m@, r.unwrap().r@, r.unwrap().s@)
}

/// The first party's place among the signers.
pub const OWN_PLACE: u16 = 0;

/// The second party's place among the signers.
pub const OTHER_PLACE: u16 = 1;

/// The places of the two signers.
pub fn both_parties() -> (r: Vec<u16>)
    ensures
        r@ == seq![OWN_PLACE, OTHER_PLACE],
{
    let r = vec![OWN_PLACE, OTHER_PLACE];
    assert(r@ =~= seq![OWN_PLACE, OTHER_PLACE]);
    r
}

/// What the third message comes to, once the two share conversions have been
/// read and the other party's `w` has been held against the sharings. Fails
/// with `InvalidMtAProof` when an answer left no share, else with
/// `ShareCommitmentMismatch` when `committed` is false. On success gives the
/// third message, which holds `delta_i = k_i gamma_i + alpha + beta`, and
/// `sigma_i = k_i w_i + miu + ni`.
pub fn conclude_third_message(
    party1_sign_keys: &SignSessionKeys,
    alpha: Option<Scalar>,
    miu: Option<Scalar>,
    committed: bool,
    beta: Scalar,
    ni: Scalar,
) -> (r: Result<(SignMessage3, Scalar), ProtocolError>)
    ensures
        third_message_outcome(*party1_sign_keys, share_value(alpha), share_value(miu), committed, beta, ni, r),
{
    match (alpha, miu) {
        (Some(alpha), Some(miu)) => {
            if !committed {
                return Err(ProtocolError::ShareCommitmentMismatch);
            }
            let delta = delta_share(party1_sign_keys, &alpha, &beta);
            let sigma = sigma_share(party1_sign_keys, &miu, &ni);
            Ok((SignMessage3 { delta }, sigma))
        },
        _ => Err(ProtocolError::InvalidMtAProof),
    }
}

impl MasterKey1 {
    /// Starts a signing session: draws the session's secrets afresh, commits
    /// to the public point of `gamma_i`, and asks for a share conversion with
    /// an encryption of `k_i` under this party's Paillier key. Fails with
    /// `MalformedInput` exactly when the key's public part is not well
    /// shaped.
    pub fn sign_first_message(&self) -> (r: Result<(SignMessage1, SignDecommitPhase1, SignSessionKeys), ProtocolError>)
        ensures
            sign_first_result(*self, r),
    {
        if !self.public.is_well_shaped() {
            return Err(ProtocolError::MalformedInput);
        }
        let parties = both_parties();
        let sign_keys = create_sign_keys(&self.private, &self.public.vss_scheme_vec[0], OWN_PLACE, &parties);
        let (com, decommit) = broadcast_sign_keys(&sign_keys);
        let (m_a_k, randomness) = mta_request(&sign_keys.k_i, &self.public.paillier_key_vec[0]);
        assert(m_a_k.c@ == paillier_encrypt(self.public.paillier_key_vec@[0].n@, sign_keys.k_i@, randomness@));
        let sign_message1 = SignMessage1 { com, m_a_k };
        Ok((sign_message1, decommit, sign_keys))
    }

    /// Answers the other party's request twice: once with `gamma_i` and once
    /// with `w_i`. Gives the two answers and the two shares, `beta` and `ni`,
    /// that stay here. Fails with `MalformedInput` exactly when the key's
    /// public part is not well shaped.
    pub fn sign_second_message(&self, party2_message1: &SignMessage1, party1_sign_keys: &SignSessionKeys) -> (r: Result<
        (SignMessage2, Scalar, Scalar),
        ProtocolError,
    >)
        ensures
            sign_second_result(*self, *party2_message1, *party1_sign_keys, r),
    {
        if !self.public.is_well_shaped() {
            return Err(ProtocolError::MalformedInput);
        }
        let ek = &self.public.paillier_key_vec[1];
        let (m_b_gamma, beta, beta_tag, randomness) = mta_answer(&party1_sign_keys.gamma_i, ek, &party2_message1.m_a_k);
        assert(m_b_gamma.c@ == mta_answer_ciphertext(
            ek.n@,
            party2_message1.m_a_k.c@,
            party1_sign_keys.gamma_i@,
            beta_tag@,
            randomness@,
        ));
        let (m_b_w, ni, ni_tag, randomness) = mta_answer(&party1_sign_keys.w_i, ek, &party2_message1.m_a_k);
        assert(m_b_w.c@ == mta_answer_ciphertext(
            ek.n@,
            party2_message1.m_a_k.c@,
            party1_sign_keys.w_i@,
            ni_tag@,
            randomness@,
        ));
        let party1_message2 = SignMessage2 { m_b_gamma, m_b_w };
        Ok((party1_message2, beta, ni))
    }

    /// Reads the other party's two answers and holds its `w` against the key
    /// generation's sharings. Fails with `MalformedInput` when the key's
    /// public part is not well shaped, with `InvalidMtAProof` when an answer
    /// leaves no share, and with `ShareCommitmentMismatch` when the point
    /// that the second answer proves knowledge for is not the one that the
    /// sharings commit to. On success there are shares `alpha` and `miu`
    /// that the answers left, and the outcome is that of
    /// `conclude_third_message` for them.
    pub fn sign_third_message(
        &self,
        party2_message2: &SignMessage2,
        party1_sign_keys: &SignSessionKeys,
        beta: Scalar,
        ni: Scalar,
    ) -> (r: Result<(SignMessage3, Scalar), ProtocolError>)
        ensures
            sign_third_result(*self, *party2_message2, *party1_sign_keys, beta, ni, r),
    {
        if !self.public.is_well_shaped() {
            return Err(ProtocolError::MalformedInput);
        }
        let alpha = mta_alpha(&party2_message2.m_b_gamma, &self.private, &party1_sign_keys.k_i);
        let miu = mta_alpha(&party2_message2.m_b_w, &self.private, &party1_sign_keys.k_i);
        let xi_com_vec = commitments_to_shares(&self.public.vss_scheme_vec[0], &self.public.vss_scheme_vec[1]);
        let parties = both_parties();
        let g_w_i = update_commitment(&xi_com_vec[1], &self.public.vss_scheme_vec[1], OTHER_PLACE, &parties);
        let committed = party2_message2.m_b_w.b_proof.pk.same(&g_w_i);
        conclude_third_message(party1_sign_keys, alpha, miu, committed, beta, ni)
    }

    /// The fourth message: the decommitment of the first.
    pub fn sign_fourth_message(decommit: SignDecommitPhase1) -> (r: SignMessage4)
        ensures
            r.decommit == decommit,
    {
        SignMessage4 { decommit }
    }

    /// Puts the nonce point together and starts the reveal of the signature
    /// share. Fails with `SignatureAssemblyError` when the two `delta`
    /// shares add up to zero; else with `InvalidCommitment` when the other
    /// party's blinding point does not fit what it sent before; else with
    /// `SignatureAssemblyError` when the nonce point is the point at
    /// infinity. On success gives the fifth message (a commitment to the
    /// first reveal), the first reveal with its two proofs, the local
    /// signature and the nonce point.
    pub fn sign_fifth_message(
        &self,
        message: BigNumber,
        sigma: Scalar,
        party1_sign_keys: &SignSessionKeys,
        party1_message4: SignMessage4,
        party1_message3: SignMessage3,
        party2_message3: SignMessage3,
        party2_message4: SignMessage4,
        party2_message2: SignMessage2,
        party2_message1: SignMessage1,
    ) -> (r: Result<(SignMessage5, Phase5Decommit1, HomoELGamalProof, DLogProof, LocalSig, Point), ProtocolError>)
        ensures
            sign_fifth_result(
                *self,
                message,
                sigma,
                *party1_sign_keys,
                party1_message4,
                party1_message3,
                party2_message3,
                party2_message4,
                party2_message2,
                party2_message1,
                r,
            ),
    {
        let total = scalar_add(&party1_message3.delta, &party2_message3.delta);
        if total.is_zero() {
            return Err(ProtocolError::SignatureAssemblyError);
        }
        let delta_inv = invert_delta_sum(&party1_message3.delta, &party2_message3.delta);
        let b_proof = party2_message2.m_b_gamma.b_proof;
        let shared = nonce_share(&delta_inv, &b_proof, &party2_message4.decommit, &party2_message1.com);
        match shared {
            None => Err(ProtocolError::InvalidCommitment),
            Some(R) => {
                let own = point_mul(&party1_message4.decommit.g_gamma_i, &delta_inv);
                let R = point_add(&R, &own);
                if R.is_zero() {
                    assert(is_inverse(delta_inv@, delta_sum(party1_message3, party2_message3)));
                    return Err(ProtocolError::SignatureAssemblyError);
                }
                let local_sig = local_signature(&party1_sign_keys.k_i, &message, &R, &sigma, &self.public.q);
                let (phase5_com, phase_5a_decom, helgamal_proof, dlog_proof_rho) = phase5_commit(&local_sig);
                let sign_message5 = SignMessage5 { phase5_com };
                assert(is_inverse(delta_inv@, delta_sum(party1_message3, party2_message3)));
                Ok((sign_message5, phase_5a_decom, helgamal_proof, dlog_proof_rho, local_sig, R))
            },
        }
    }

    /// The sixth message: the first reveal with its two proofs.
    pub fn sign_sixth_message(phase_5a_decom: Phase5Decommit1, helgamal_proof: HomoELGamalProof, dlog_proof_rho: DLogProof) -> (r:
        SignMessage6)
        ensures
            r.phase_5a_decom == phase_5a_decom,
            r.helgamal_proof == helgamal_proof,
            r.dlog_proof_rho == dlog_proof_rho,
    {
        SignMessage6 { phase_5a_decom, helgamal_proof, dlog_proof_rho }
    }

    /// Checks the other party's first reveal and makes the second. Fails
    /// with `SignatureAssemblyError` when the local signature's nonce point
    /// is the point at infinity; else with `InvalidCommitment` when the other
    /// party's first reveal does not open its commitment or comes without
    /// valid proofs. On success gives the seventh message (a commitment to
    /// the second reveal) and the second reveal.
    pub fn sign_seventh_message(
        party1_message6: SignMessage6,
        party2_message6: SignMessage6,
        party2_message5: SignMessage5,
        local_sig: &LocalSig,
        R: Point,
    ) -> (r: Result<(SignMessage7, Phase5Decommit2), ProtocolError>)
        ensures
            sign_seventh_result(party1_message6, party2_message6, party2_message5, *local_sig, R, r),
    {
        if local_sig.R.is_zero() {
            return Err(ProtocolError::SignatureAssemblyError);
        }
        let second = phase5_check(
            local_sig,
            &party2_message6.phase_5a_decom,
            &party2_message5.phase5_com,
            &party2_message6.helgamal_proof,
            &party2_message6.dlog_proof_rho,
            &party1_message6.phase_5a_decom.V_i,
            &R,
        );
        match second {
            None => Err(ProtocolError::InvalidCommitment),
            Some((phase5_com2, phase_5d_decom2)) => Ok((SignMessage7 { phase5_com2 }, phase_5d_decom2)),
        }
    }

    /// The eighth message: the second reveal.
    pub fn sign_eighth_message(phase_5d_decom2: Phase5Decommit2) -> (r: SignMessage8)
        ensures
            r.phase_5d_decom2 == phase_5d_decom2,
    {
        SignMessage8 { phase_5d_decom2 }
    }

    /// Checks both second reveals and releases this party's signature share.
    /// Fails with `InvalidCommitment` when a second reveal does not open its
    /// commitment; else with `SignatureAssemblyError` when the reveals of the
    /// two parties do not cancel. On success the ninth message holds the
    /// local signature's share.
    pub fn sign_ninth_message(
        party1_message6: SignMessage6,
        party2_message6: SignMessage6,
        party1_message7: SignMessage7,
        party2_message7: SignMessage7,
        party1_message8: SignMessage8,
        party2_message8: SignMessage8,
        local_sig: &LocalSig,
    ) -> (r: Result<SignMessage9, ProtocolError>)
        ensures
            sign_ninth_result(
                party1_message6,
                party2_message6,
                party1_message7,
                party2_message7,
                party1_message8,
                party2_message8,
                *local_sig,
                r,
            ),
    {
        let share = phase5_reveal(
            local_sig,
            &party1_message8.phase_5d_decom2,
            &party2_message8.phase_5d_decom2,
            &party1_message7.phase5_com2,
            &party2_message7.phase5_com2,
            &party1_message6.phase_5a_decom,
            &party2_message6.phase_5a_decom,
        );
        match share {
            Ok(s_i) => Ok(SignMessage9 { s_i }),
            Err(e) => Err(e),
        }
    }

    /// Combines both signature shares into the signature. The signature has
    /// the nonce point's x coordinate for `r` and the lower of the sum of the
    /// shares and its negation for `s`. It is given exactly when the nonce
    /// point is not the point at infinity and the signature verifies on the
    /// local signature's message for its public key; otherwise the function
    /// fails with `SignatureAssemblyError`.
    pub fn output_signature(party2_message9: SignMessage9, local_sig: LocalSig) -> (r: Result<Signature, ProtocolError>)
        ensures
            signature_result(party2_message9, local_sig, r),
    {
        match combine_signature(&local_sig, &party2_message9.s_i) {
            Some(sig) => Ok(sig),
            None => Err(ProtocolError::SignatureAssemblyError),
        }
    }
}

impl Signature {
    /// Whether the signature is one on the message for the public key.
    pub fn verify(&self, public_key: &Point, message: &BigNumber) -> (r: bool)
        ensures
            r == ecdsa_accepts(public_key@, message@, self.r@, self.s@),
    {
        verify_signature(self, public_key, message)
    }
}

/// Every signature that a session gives verifies under the joint public key:
/// where the fifth message went through for a key and a message, and
/// `output_signature` gave a signature for the local signature that it made,
/// the signature is one on that message for the key's joint public key.
pub proof fn lemma_signature_verifies(
    key: MasterKey1,
    message: nat,
    k_i: nat,
    sigma: nat,
    nonce: Seq<u8>,
    fifth: Result<(SignMessage5, Phase5Decommit1, HomoELGamalProof, DLogProof, LocalSig, Point), ProtocolError>,
    other: nat,
    sig: Signature,
)
    requires
        fifth.is_ok(),
        fifth_message_outcome(nonce, k_i, message, sigma, key.public.q@, fifth),
        (sig.r@, sig.s@) == signature_values(fifth.unwrap().4, other),
        ecdsa_accepts(fifth.unwrap().4.y@, fifth.unwrap().4.m@, sig.r@, sig.s@),
    ensures
        ecdsa_accepts(key.public.q@, message, sig.r@, sig.s@),
        sig.r@ == reduced(x_coordinate(nonce)),
{
}

} // verus!
