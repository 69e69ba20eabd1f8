//! The calls of signing into `multi_party_ecdsa`.
use vstd::prelude::*;
use curv::arithmetic::Converter;
use curv::elliptic::curves::Scalar as Fe;
use curv::BigInt;
use multi_party_ecdsa::protocols::multi_party_ecdsa::gg_2018::party_i as gg18;
use multi_party_ecdsa::utilities::mta;
use multi_party_ecdsa::Error;
use crate::bytes::{all_zero, be_nat};
use crate::commitment::hash_commitment;
use crate::error::ProtocolError;
use crate::keygen_calls::dlog_accepts;
use crate::number::BigNumber;
use crate::point::{ec_add, ec_mul, generator_bytes, x_coordinate, Point};
use crate::raw::{
    dlog_proof_from_raw, elgamal_proof_from_raw, message_b_from_raw, raw_dlog_proof,
    raw_elgamal_proof, raw_encryption_key,
    raw_local_signature, raw_message_b, raw_phase5a_decom, raw_phase5d_decom, raw_point,
    raw_private, raw_sharing, raw_sign_keys, RawDLogProof, RawElGamalProof,
};
use crate::scalar::{group_order, Scalar};
use crate::types::{
    encodings, DLogProof, HomoELGamalProof, LocalSig, MtaMessageA, MtaMessageB,
    PaillierPublicKey, Phase5Commit1, Phase5Commit2, Phase5Decommit1, Phase5Decommit2,
    PrivateKeyMaterial, SignBroadcastPhase1, SignDecommitPhase1, SignSessionKeys, Signature,
    VerifiableSS,
};

verus! {

/// The compressed form of the difference of two points given in compressed
/// form, as `Point - Point` of `curv` computes it.
pub uninterp spec fn ec_sub(a: Seq<u8>, b: Seq<u8>) -> Seq<u8>;

/// The Paillier encryption of `m` under the modulus `n` with the randomness
/// `r`, as `Paillier::encrypt_with_chosen_randomness` of `paillier` computes
/// it.
pub uninterp spec fn paillier_encrypt(n: nat, m: nat, r: nat) -> nat;

/// The ciphertext of the answer to the request `request` under the modulus
/// `n`, for the value `b` with the drawn values `beta_tag` and `randomness`,
/// as `MessageB::b_with_predefined_randomness` of `multi_party_ecdsa`
/// computes it.
pub uninterp spec fn mta_answer_ciphertext(n: nat, request: nat, b: nat, beta_tag: nat, randomness: nat) -> nat;

/// The share that `MessageB::verify_proofs_get_alpha_gg18` of
/// `multi_party_ecdsa` reads from the ciphertext `c` with the decryption key
/// of the primes `p` and `q`: the plaintext, as a scalar.
pub uninterp spec fn mta_share(p: nat, q: nat, c: nat) -> nat;

/// The SHA-256 digest of a list of points, each given in compressed form,
/// read as a number, as `chain_points` and `result_bigint` of `curv` compute
/// it from the points.
pub uninterp spec fn points_digest(points: Seq<Seq<u8>>) -> nat;

/// The commitment of a sharing, given by its commitments in compressed form,
/// to the share of the party with the given index, as
/// `VerifiableSS::get_point_commitment` of `curv` computes it.
pub uninterp spec fn share_commitment(commitments: Seq<Seq<u8>>, index: nat) -> Seq<u8>;

/// Whether `HomoELGamalProof::verify` of `curv` accepts the proof with the
/// fields `t`, `a3`, `z1`, `z2` for the statement with the fields `g`, `h`,
/// `y`, `d`, `e`.
pub uninterp spec fn elgamal_accepts(
    t: Seq<u8>,
    a3: Seq<u8>,
    z1: nat,
    z2: nat,
    g: Seq<u8>,
    h: Seq<u8>,
    y: Seq<u8>,
    d: Seq<u8>,
    e: Seq<u8>,
) -> bool;

/// Whether `verify` of `multi_party_ecdsa` accepts the signature `(r, s)` on
/// the message `m` for the public key `y`.
pub uninterp spec fn ecdsa_accepts(y: Seq<u8>, m: nat, r: nat, s: nat) -> bool;

/// The number modulo the group order.
pub open spec fn reduced(n: nat) -> nat {
    n % group_order()
}

/// The negation of a scalar.
pub open spec fn negated(n: nat) -> nat {
    ((group_order() - n) % (group_order() as int)) as nat
}

/// The lower of `s` and its negation.
pub open spec fn low_s(s: nat) -> nat {
    if s > group_order() - s {
        (group_order() - s) as nat
    } else {
        s
    }
}

/// The commitment to a list of points under a blinding number.
pub open spec fn points_commitment(points: Seq<Seq<u8>>, blind: nat) -> nat {
    hash_commitment(points_digest(points), blind)
}

/// The point whose multiples the second reveal of the last phases commits
/// to: the two first reveals added, less the message's and the public key's
/// parts.
pub open spec fn phase5_residue(s: LocalSig, v_i: Seq<u8>, v_other: Seq<u8>) -> Seq<u8> {
    ec_sub(
        ec_sub(ec_add(v_i, v_other), ec_mul(generator_bytes(), reduced(s.m@))),
        ec_mul(s.y@, reduced(x_coordinate(s.R@))),
    )
}

/// Whether the second reveals of both parties cancel: the generator, with
/// the `t` and `B` points added and the `u` points taken away, is the
/// generator.
pub open spec fn phase5_sum_cancels(d2: Phase5Decommit2, e2: Phase5Decommit2, d1: Phase5Decommit1, e1: Phase5Decommit1) -> bool {
    ec_sub(
        ec_add(generator_bytes(), ec_add(ec_add(ec_add(d2.t_i@, e2.t_i@), d1.B_i@), e1.B_i@)),
        ec_add(d2.u_i@, e2.u_i@),
    ) == generator_bytes()
}

/// `SignKeys::create` of `multi_party_ecdsa`, for the first of two parties:
/// the combined share taken twice (the first party's Lagrange coefficient
/// among the two), fresh nonzero `k_i` and `gamma_i`, and the public points
/// of `w_i` and `gamma_i`.
#[verifier::external_body]
pub(crate) fn create_sign_keys(private: &PrivateKeyMaterial, vss: &VerifiableSS, index: u16, parties: &Vec<u16>) -> (r:
    SignSessionKeys)
    requires
        index == 0,
        parties@ == seq![0u16, 1u16],
    ensures
        r.w_i@ == (2 * private.x_i@) % group_order(),
        r.g_w_i@ == ec_mul(generator_bytes(), r.w_i@),
        r.g_gamma_i@ == ec_mul(generator_bytes(), r.gamma_i@),
        r.gamma_i@ != 0,
        r.k_i@ != 0,
{
    let k = gg18::SignKeys::create(&raw_private(private), &raw_sharing(vss).inner, index, parties);
    SignSessionKeys {
        w_i: Scalar { bytes: k.w_i.to_bytes().to_vec() },
        g_w_i: Point { bytes: k.g_w_i.to_bytes(true).to_vec() },
        k_i: Scalar { bytes: k.k_i.to_bytes().to_vec() },
        gamma_i: Scalar { bytes: k.gamma_i.to_bytes().to_vec() },
        g_gamma_i: Point { bytes: k.g_gamma_i.to_bytes(true).to_vec() },
    }
}

/// `SignKeys::phase1_broadcast` of `multi_party_ecdsa`: a commitment to the
/// public point of `gamma_i`, and the decommitment, which carries the
/// session's `g_gamma_i`.
#[verifier::external_body]
pub(crate) fn broadcast_sign_keys(k: &SignSessionKeys) -> (r: (SignBroadcastPhase1, SignDecommitPhase1))
    ensures
        r.1.g_gamma_i@ == k.g_gamma_i@,
        r.0.com@ == hash_commitment(be_nat(ec_mul(generator_bytes(), k.gamma_i@)), r.1.blind_factor@),
{
    let (c, d) = raw_sign_keys(k).phase1_broadcast();
    let blind_factor = BigNumber { bytes: d.blind_factor.to_bytes() };
    let g_gamma_i = Point { bytes: d.g_gamma_i.to_bytes(true).to_vec() };
    (SignBroadcastPhase1 { com: BigNumber { bytes: c.com.to_bytes() } }, SignDecommitPhase1 { blind_factor, g_gamma_i })
}

/// `MessageA::a` of `multi_party_ecdsa`, without range proofs: the
/// encryption of `a` under the key, and the randomness it was made with.
#[verifier::external_body]
pub(crate) fn mta_request(a: &Scalar, ek: &PaillierPublicKey) -> (r: (MtaMessageA, BigNumber))
    requires
        ek.n@ > 0,
    ensures
        r.0.c@ == paillier_encrypt(ek.n@, a@, r.1@),
{
    let (m, randomness) = mta::MessageA::a(&Fe::from_bytes(&a.bytes).unwrap(), &raw_encryption_key(ek), &[]);
    (MtaMessageA { c: BigNumber { bytes: m.c.to_bytes() } }, BigNumber { bytes: randomness.to_bytes() })
}

/// `MessageB::b` of `multi_party_ecdsa`, without range proofs: the answer to
/// a request, the additive share `beta` that stays with the caller, and the
/// two values drawn, `beta_tag` and the randomness. The answer's ciphertext
/// is made from them, `beta` is the negation of `beta_tag`, and the answer
/// proves knowledge of `b` and of the negation of `beta`.
#[verifier::external_body]
pub(crate) fn mta_answer(b: &Scalar, ek: &PaillierPublicKey, m_a: &MtaMessageA) -> (r: (
    MtaMessageB,
    Scalar,
    BigNumber,
    BigNumber,
))
    requires
        ek.n@ > 0,
    ensures
        r.0.c@ == mta_answer_ciphertext(ek.n@, m_a.c@, b@, r.2@, r.3@),
        r.1@ == negated(r.2@ % group_order()),
        r.0.b_proof.pk@ == ec_mul(generator_bytes(), b@),
        r.0.beta_tag_proof.pk@ == ec_mul(generator_bytes(), ((group_order() - r.1@) % (group_order() as int)) as nat),
{
    let request = mta::MessageA { c: BigInt::from_bytes(&m_a.c.bytes), range_proofs: vec![] };
    let (m, beta, randomness, beta_tag) =
        mta::MessageB::b(&Fe::from_bytes(&b.bytes).unwrap(), &raw_encryption_key(ek), request, &[]).unwrap();
    let drawn = (BigNumber { bytes: beta_tag.to_bytes() }, BigNumber { bytes: randomness.to_bytes() });
    (message_b_from_raw(&m), Scalar { bytes: beta.to_bytes().to_vec() }, drawn.0, drawn.1)
}

/// `MessageB::verify_proofs_get_alpha_gg18` of `multi_party_ecdsa`: the
/// additive share that an answer leaves with the party that asked with `a`.
/// It is the share read from the answer's ciphertext, and it is given exactly
/// when both proofs of the answer verify and the answer's two public points,
/// the first taken `a` times, add up to the public point of that share.
#[verifier::external_body]
pub(crate) fn mta_alpha(m_b: &MtaMessageB, private: &PrivateKeyMaterial, a: &Scalar) -> (r: Option<Scalar>)
    ensures
        r.is_some() == (dlog_accepts(
            m_b.b_proof.pk@,
            m_b.b_proof.pk_t_rand_commitment@,
            m_b.b_proof.challenge_response@,
        ) && dlog_accepts(
            m_b.beta_tag_proof.pk@,
            m_b.beta_tag_proof.pk_t_rand_commitment@,
            m_b.beta_tag_proof.challenge_response@,
        ) && ec_add(ec_mul(m_b.b_proof.pk@, a@), m_b.beta_tag_proof.pk@) == ec_mul(
            generator_bytes(),
            mta_share(private.dk.primes().0, private.dk.primes().1, m_b.c@),
        )),
        r.is_some() ==> r.unwrap()@ == mta_share(private.dk.primes().0, private.dk.primes().1, m_b.c@),
{
    let alpha = raw_message_b(m_b).verify_proofs_get_alpha_gg18(&raw_private(private), &Fe::from_bytes(&a.bytes).unwrap()).ok()?;
    Some(Scalar { bytes: alpha.to_bytes().to_vec() })
}

/// `Keys::get_commitments_to_xi` of `multi_party_ecdsa`, for two sharings:
/// for each party, the sum of what the two sharings commit to for it.
#[verifier::external_body]
pub(crate) fn commitments_to_shares(v1: &VerifiableSS, v2: &VerifiableSS) -> (r: Vec<Point>)
    requires
        v1.commitments@.len() > 0,
        v2.commitments@.len() > 0,
    ensures
        r@.len() == 2,
        r@[0]@ == ec_add(share_commitment(encodings(v1.commitments@), 1), share_commitment(encodings(v2.commitments@), 1)),
        r@[1]@ == ec_add(share_commitment(encodings(v1.commitments@), 2), share_commitment(encodings(v2.commitments@), 2)),
{
    let v = [raw_sharing(v1).inner, raw_sharing(v2).inner];
    gg18::Keys::get_commitments_to_xi(&v).iter().map(|p| Point { bytes: p.to_bytes(true).to_vec() }).collect()
}

/// `Keys::update_commitments_to_xi` of `multi_party_ecdsa`, for the second
/// of two parties: the commitment taken by that party's Lagrange coefficient
/// among the two, which is minus one.
#[verifier::external_body]
pub(crate) fn update_commitment(comm: &Point, vss: &VerifiableSS, index: u16, parties: &Vec<u16>) -> (r: Point)
    requires
        index == 1,
        parties@ == seq![0u16, 1u16],
    ensures
        r@ == ec_mul(comm@, (group_order() - 1) as nat),
{
    let p = gg18::Keys::update_commitments_to_xi(&raw_point(comm).inner, &raw_sharing(vss).inner, index, parties);
    Point { bytes: p.to_bytes(true).to_vec() }
}

/// `SignKeys::phase2_delta_i` of `multi_party_ecdsa`, with one `alpha` and
/// one `beta`.
#[verifier::external_body]
pub(crate) fn delta_share(k: &SignSessionKeys, alpha: &Scalar, beta: &Scalar) -> (r: Scalar)
    ensures
        r@ == (k.k_i@ * k.gamma_i@ + alpha@ + beta@) % group_order(),
{
    let a = [Fe::from_bytes(&alpha.bytes).unwrap()];
    let b = [Fe::from_bytes(&beta.bytes).unwrap()];
    Scalar { bytes: raw_sign_keys(k).phase2_delta_i(&a, &b).to_bytes().to_vec() }
}

/// `SignKeys::phase2_sigma_i` of `multi_party_ecdsa`, with one `miu` and one
/// `ni`.
#[verifier::external_body]
pub(crate) fn sigma_share(k: &SignSessionKeys, miu: &Scalar, ni: &Scalar) -> (r: Scalar)
    ensures
        r@ == (k.k_i@ * k.w_i@ + miu@ + ni@) % group_order(),
{
    let a = [Fe::from_bytes(&miu.bytes).unwrap()];
    let b = [Fe::from_bytes(&ni.bytes).unwrap()];
    Scalar { bytes: raw_sign_keys(k).phase2_sigma_i(&a, &b).to_bytes().to_vec() }
}

/// `SignKeys::phase3_reconstruct_delta` of `multi_party_ecdsa`, for two
/// shares whose sum is not zero: the inverse of the sum.
#[verifier::external_body]
pub(crate) fn invert_delta_sum(d1: &Scalar, d2: &Scalar) -> (r: Scalar)
    requires
        (d1@ + d2@) % group_order() != 0,
    ensures
        (r@ * ((d1@ + d2@) % group_order())) % group_order() == 1,
{
    let d = [Fe::from_bytes(&d1.bytes).unwrap(), Fe::from_bytes(&d2.bytes).unwrap()];
    Scalar { bytes: gg18::SignKeys::phase3_reconstruct_delta(&d).to_bytes().to_vec() }
}

/// `SignKeys::phase4` of `multi_party_ecdsa`, for one other party. It
/// succeeds exactly when the proof's public point is the decommitted point
/// and the decommitment opens the commitment; it then gives the decommitted
/// point taken `delta_inv` times.
#[verifier::external_body]
pub(crate) fn nonce_share(
    delta_inv: &Scalar,
    b_proof: &DLogProof,
    decommit: &SignDecommitPhase1,
    com: &SignBroadcastPhase1,
) -> (r: Option<Point>)
    ensures
        r.is_some() == (b_proof.pk@ == decommit.g_gamma_i@ && com.com@ == hash_commitment(
            be_nat(decommit.g_gamma_i@),
            decommit.blind_factor@,
        )),
        r.is_some() ==> r.unwrap()@ == ec_mul(decommit.g_gamma_i@, delta_inv@),
{
    let p = raw_dlog_proof(b_proof).inner;
    let d = gg18::SignDecommitPhase1 { blind_factor: BigInt::from_bytes(&decommit.blind_factor.bytes), g_gamma_i: raw_point(&decommit.g_gamma_i).inner };
    let c = gg18::SignBroadcastPhase1 { com: BigInt::from_bytes(&com.com.bytes) };
    let point = gg18::SignKeys::phase4(&Fe::from_bytes(&delta_inv.bytes).unwrap(), &[&p], vec![d], &[c]).ok()?;
    Some(Point { bytes: point.to_bytes(true).to_vec() })
}

/// `LocalSignature::phase5_local_sig` of `multi_party_ecdsa`, for a nonce
/// point that is not the point at infinity: the share
/// `s_i = m * k_i + r * sigma_i`, where `r` is the nonce point's x
/// coordinate, with fresh nonzero `l_i` and `rho_i`.
#[verifier::external_body]
pub(crate) fn local_signature(k_i: &Scalar, message: &BigNumber, R: &Point, sigma_i: &Scalar, pubkey: &Point) -> (r: LocalSig)
    requires
        !all_zero(R@),
    ensures
        r.R@ == R@,
        r.y@ == pubkey@,
        r.m@ == message@,
        r.s_i@ == ((message@ % group_order()) * k_i@ + (x_coordinate(R@) % group_order()) * sigma_i@) % group_order(),
        r.l_i@ != 0,
        r.rho_i@ != 0,
{
    let k = Fe::from_bytes(&k_i.bytes).unwrap();
    let s = Fe::from_bytes(&sigma_i.bytes).unwrap();
    let l = gg18::LocalSignature::phase5_local_sig(&k, &BigInt::from_bytes(&message.bytes), &raw_point(R).inner, &s, &raw_point(pubkey).inner);
    LocalSig {
        l_i: Scalar { bytes: l.l_i.to_bytes().to_vec() },
        rho_i: Scalar { bytes: l.rho_i.to_bytes().to_vec() },
        R: Point { bytes: l.R.to_bytes(true).to_vec() },
        s_i: Scalar { bytes: l.s_i.to_bytes().to_vec() },
        m: BigNumber { bytes: l.m.to_bytes() },
        y: Point { bytes: l.y.to_bytes(true).to_vec() },
    }
}

/// `LocalSignature::phase5a_broadcast_5b_zkproof` of `multi_party_ecdsa`: the
/// first reveal `V_i = s_i R + l_i G`, `A_i = rho_i G`, `B_i = l_i rho_i G`,
/// a commitment to the three, a proof about them and a proof of knowledge of
/// `rho_i`. Both proofs verify.
#[verifier::external_body]
pub(crate) fn phase5_commit(s: &LocalSig) -> (r: (Phase5Commit1, Phase5Decommit1, HomoELGamalProof, DLogProof))
    ensures
        r.1.V_i@ == ec_add(ec_mul(s.R@, s.s_i@), ec_mul(generator_bytes(), s.l_i@)),
        r.1.A_i@ == ec_mul(generator_bytes(), s.rho_i@),
        r.1.B_i@ == ec_mul(generator_bytes(), (s.l_i@ * s.rho_i@) % group_order()),
        r.0.com@ == hash_commitment(points_digest(seq![r.1.V_i@, r.1.A_i@, r.1.B_i@]), r.1.blind_factor@),
        r.3.pk@ == ec_mul(generator_bytes(), s.rho_i@),
        dlog_accepts(r.3.pk@, r.3.pk_t_rand_commitment@, r.3.challenge_response@),
        elgamal_accepts(
            r.2.T@,
            r.2.A3@,
            r.2.z1@,
            r.2.z2@,
            r.1.A_i@,
            s.R@,
            generator_bytes(),
            r.1.V_i@,
            r.1.B_i@,
        ),
{
    let (c, d, e, p) = raw_local_signature(s).phase5a_broadcast_5b_zkproof();
    let decom = Phase5Decommit1 {
        V_i: Point { bytes: d.V_i.to_bytes(true).to_vec() },
        A_i: Point { bytes: d.A_i.to_bytes(true).to_vec() },
        B_i: Point { bytes: d.B_i.to_bytes(true).to_vec() },
        blind_factor: BigNumber { bytes: d.blind_factor.to_bytes() },
    };
    let proof = elgamal_proof_from_raw(&RawElGamalProof { inner: e });
    (Phase5Commit1 { com: BigNumber { bytes: c.com.to_bytes() } }, decom, proof, dlog_proof_from_raw(&RawDLogProof { inner: p }))
}

/// `LocalSignature::phase5c` of `multi_party_ecdsa`, for one other party. It
/// succeeds exactly when the own nonce point is not the point at infinity,
/// the other party's first reveal opens its commitment, and both of its
/// proofs verify; it then gives the second reveal and a commitment to it.
#[verifier::external_body]
pub(crate) fn phase5_check(
    s: &LocalSig,
    decom: &Phase5Decommit1,
    com: &Phase5Commit1,
    proof: &HomoELGamalProof,
    dlog: &DLogProof,
    v_i: &Point,
    R: &Point,
) -> (r: Option<(Phase5Commit2, Phase5Decommit2)>)
    ensures
        r.is_some() == (!all_zero(s.R@) && com.com@ == hash_commitment(
            points_digest(seq![decom.V_i@, decom.A_i@, decom.B_i@]),
            decom.blind_factor@,
        ) && elgamal_accepts(
            proof.T@,
            proof.A3@,
            proof.z1@,
            proof.z2@,
            decom.A_i@,
            R@,
            generator_bytes(),
            decom.V_i@,
            decom.B_i@,
        ) && dlog_accepts(dlog.pk@, dlog.pk_t_rand_commitment@, dlog.challenge_response@)),
        r.is_some() ==> r.unwrap().1.u_i@ == ec_mul(
            ec_sub(
                ec_sub(ec_add(v_i@, decom.V_i@), ec_mul(generator_bytes(), s.m@ % group_order())),
                ec_mul(s.y@, x_coordinate(s.R@) % group_order()),
            ),
            s.rho_i@,
        ) && r.unwrap().1.t_i@ == ec_mul(decom.A_i@, s.l_i@) && r.unwrap().0.com@ == hash_commitment(
            points_digest(seq![r.unwrap().1.u_i@, r.unwrap().1.t_i@]),
            r.unwrap().1.blind_factor@,
        ),
{
    let c = gg18::Phase5Com1 { com: BigInt::from_bytes(&com.com.bytes) };
    let (e, p) = (raw_elgamal_proof(proof).inner, raw_dlog_proof(dlog).inner);
    let (c2, d2) = raw_local_signature(s).phase5c(&[raw_phase5a_decom(decom)], &[c], &[e], &[p], &raw_point(v_i).inner, &raw_point(R).inner).ok()?;
    let decom2 = Phase5Decommit2 {
        u_i: Point { bytes: d2.u_i.to_bytes(true).to_vec() },
        t_i: Point { bytes: d2.t_i.to_bytes(true).to_vec() },
        blind_factor: BigNumber { bytes: d2.blind_factor.to_bytes() },
    };
    Some((Phase5Commit2 { com: BigNumber { bytes: c2.com.to_bytes() } }, decom2))
}

/// `LocalSignature::phase5d` of `multi_party_ecdsa`, for two parties. It
/// fails with `InvalidCommitment` when a second reveal does not open its
/// commitment, else with `SignatureAssemblyError` when the reveals do not
/// cancel; otherwise it gives the own signature share.
#[verifier::external_body]
pub(crate) fn phase5_reveal(
    s: &LocalSig,
    d2: &Phase5Decommit2,
    e2: &Phase5Decommit2,
    c2: &Phase5Commit2,
    f2: &Phase5Commit2,
    d1: &Phase5Decommit1,
    e1: &Phase5Decommit1,
) -> (r: Result<Scalar, ProtocolError>)
    ensures
        r.is_ok() == (c2.com@ == points_commitment(seq![d2.u_i@, d2.t_i@], d2.blind_factor@) && f2.com@
            == points_commitment(seq![e2.u_i@, e2.t_i@], e2.blind_factor@) && phase5_sum_cancels(*d2, *e2, *d1, *e1)),
        r.is_ok() ==> r.unwrap()@ == s.s_i@,
        r.is_err() ==> r->Err_0 == (if c2.com@ == points_commitment(seq![d2.u_i@, d2.t_i@], d2.blind_factor@)
            && f2.com@ == points_commitment(seq![e2.u_i@, e2.t_i@], e2.blind_factor@) {
            ProtocolError::SignatureAssemblyError
        } else {
            ProtocolError::InvalidCommitment
        }),
{
    let coms = [gg18::Phase5Com2 { com: BigInt::from_bytes(&c2.com.bytes) }, gg18::Phase5Com2 { com: BigInt::from_bytes(&f2.com.bytes) }];
    let second = [raw_phase5d_decom(d2), raw_phase5d_decom(e2)];
    let first = [raw_phase5a_decom(d1), raw_phase5a_decom(e1)];
    match raw_local_signature(s).phase5d(&second, &coms, &first) {
        Ok(s_i) => Ok(Scalar { bytes: s_i.to_bytes().to_vec() }),
        Err(Error::InvalidCom) => Err(ProtocolError::InvalidCommitment),
        Err(_) => Err(ProtocolError::SignatureAssemblyError),
    }
}

/// `LocalSignature::output_signature` of `multi_party_ecdsa`, with one other
/// share. The signature has the nonce point's x coordinate for `r` and the
/// lower of the sum of the shares and its negation for `s`; it is given
/// exactly when the nonce point is not the point at infinity and `verify`
/// accepts the signature on the message for the public key.
#[verifier::external_body]
pub(crate) fn combine_signature(s: &LocalSig, other: &Scalar) -> (r: Option<Signature>)
    ensures
        r.is_some() == (!all_zero(s.R@) && ecdsa_accepts(
            s.y@,
            s.m@,
            x_coordinate(s.R@) % group_order(),
            low_s((s.s_i@ + other@) % group_order()),
        )),
        r.is_some() ==> r.unwrap().r@ == x_coordinate(s.R@) % group_order() && r.unwrap().s@ == low_s(
            (s.s_i@ + other@) % group_order(),
        ) && r.unwrap().recid <= 1,
{
    let sig = raw_local_signature(s).output_signature(&[Fe::from_bytes(&other.bytes).unwrap()]).ok()?;
    Some(Signature { r: Scalar { bytes: sig.r.to_bytes().to_vec() }, s: Scalar { bytes: sig.s.to_bytes().to_vec() }, recid: sig.recid })
}

/// `verify` of `multi_party_ecdsa`: whether the signature is one on the
/// message for the public key.
#[verifier::external_body]
pub(crate) fn verify_signature(sig: &Signature, y: &Point, message: &BigNumber) -> (r: bool)
    ensures
        r == ecdsa_accepts(y@, message@, sig.r@, sig.s@),
{
    let r = Fe::from_bytes(&sig.r.bytes).unwrap();
    let s = Fe::from_bytes(&sig.s.bytes).unwrap();
    gg18::verify(&gg18::SignatureRecid { r, s, recid: sig.recid }, &raw_point(y).inner, &BigInt::from_bytes(&message.bytes)).is_ok()
}

} // verus!
