//! Runs of the protocol against a second party played with the outside
//! crates directly.
use curv::arithmetic::Converter;
use curv::cryptographic_primitives::proofs::sigma_correct_homomorphic_elgamal_enc::HomoELGamalProof as RawElGamal;
use curv::cryptographic_primitives::proofs::sigma_dlog::DLogProof as RawDlog;
use curv::cryptographic_primitives::secret_sharing::feldman_vss::{
    ShamirSecretSharing as RawParameters, VerifiableSS as RawSharing,
};
use curv::elliptic::curves::{Point as Ge, Scalar as Fe, Secp256k1};
use curv::{BigInt, HashChoice};
use kzen_paillier::{Encrypt, KeyGeneration, Paillier, RawPlaintext};
use multi_party_ecdsa::protocols::multi_party_ecdsa::gg_2018::party_i as gg18;
use multi_party_ecdsa::utilities::mta;
use sha2::{Digest, Sha256};
use two_party_gg18::error::ProtocolError;
use two_party_gg18::master_key::MasterKey1;
use two_party_gg18::number::BigNumber;
use two_party_gg18::point::Point;
use two_party_gg18::scalar::Scalar;
use two_party_gg18::session::{SignSession, SignState};
use two_party_gg18::keygen::conclude_key_gen_third;
use two_party_gg18::sign::conclude_third_message;
use two_party_gg18::types::{
    CorrectKeyProof, DLogProof, HomoELGamalProof, KeyGenBroadcast, KeyGenDecommit, KeyGenMessage1,
    KeyGenMessage2, KeyGenMessage3, KeyGenMessage4, Keys, LindellPrivate, LindellPublic,
    MasterKey2L, MtaMessageA, MtaMessageB, PaillierPublicKey, Phase5Commit1, Phase5Commit2,
    Phase5Decommit1, Phase5Decommit2, Rotation, ShamirSecretSharing, SignBroadcastPhase1,
    SignDecommitPhase1, SignMessage1, SignMessage2, SignMessage3, SignMessage4, SignMessage5,
    SignMessage6, SignMessage7, SignMessage8, SignMessage9, Signature, VerifiableSS,
};
use zk_paillier::zkproofs::NiCorrectKeyProof;

type G = Ge<Secp256k1>;
type F = Fe<Secp256k1>;

fn ge(p: &Point) -> G {
    Ge::from_bytes(&p.to_bytes()).unwrap()
}

fn point(p: &G) -> Point {
    Point::from_bytes(p.to_bytes(true).to_vec()).unwrap()
}

fn fe(s: &Scalar) -> F {
    Fe::from_bytes(&s.to_bytes()).unwrap()
}

fn scalar(s: &F) -> Scalar {
    Scalar::from_bytes(s.to_bytes().to_vec()).unwrap()
}

fn small(n: u16) -> Scalar {
    scalar(&F::from(n))
}

fn big(n: &BigNumber) -> BigInt {
    BigInt::from_bytes(&n.bytes)
}

fn number(n: &BigInt) -> BigNumber {
    BigNumber::from_bytes(n.to_bytes())
}

fn raw_ek(e: &PaillierPublicKey) -> kzen_paillier::EncryptionKey {
    kzen_paillier::EncryptionKey::from(&big(&e.n))
}

fn raw_broadcast(b: &KeyGenBroadcast) -> gg18::KeyGenBroadcastMessage1 {
    gg18::KeyGenBroadcastMessage1 {
        e: raw_ek(&b.e),
        com: big(&b.com),
        correct_key_proof: NiCorrectKeyProof { sigma_vec: b.correct_key_proof.sigma_vec.iter().map(big).collect() },
    }
}

fn broadcast(b: &gg18::KeyGenBroadcastMessage1) -> KeyGenBroadcast {
    KeyGenBroadcast {
        e: PaillierPublicKey { n: number(&b.e.n) },
        com: number(&b.com),
        correct_key_proof: CorrectKeyProof { sigma_vec: b.correct_key_proof.sigma_vec.iter().map(number).collect() },
    }
}

fn raw_decommit(d: &KeyGenDecommit) -> gg18::KeyGenDecommitMessage1 {
    gg18::KeyGenDecommitMessage1 { blind_factor: big(&d.blind_factor), y_i: ge(&d.y_i) }
}

fn decommit(d: &gg18::KeyGenDecommitMessage1) -> KeyGenDecommit {
    KeyGenDecommit { blind_factor: number(&d.blind_factor), y_i: point(&d.y_i) }
}

fn raw_sharing(v: &VerifiableSS) -> RawSharing<Secp256k1> {
    RawSharing {
        parameters: RawParameters { threshold: v.parameters.threshold, share_count: v.parameters.share_count },
        commitments: v.commitments.iter().map(ge).collect(),
    }
}

fn sharing(v: &RawSharing<Secp256k1>) -> VerifiableSS {
    VerifiableSS {
        parameters: ShamirSecretSharing {
            threshold: v.parameters.threshold,
            share_count: v.parameters.share_count,
        },
        commitments: v.commitments.iter().map(point).collect(),
    }
}

fn raw_dlog(p: &DLogProof) -> RawDlog<Secp256k1, Sha256> {
    RawDlog {
        pk: ge(&p.pk),
        pk_t_rand_commitment: ge(&p.pk_t_rand_commitment),
        challenge_response: fe(&p.challenge_response),
        hash_choice: HashChoice::new(),
    }
}

fn dlog(p: &RawDlog<Secp256k1, Sha256>) -> DLogProof {
    DLogProof {
        pk: point(&p.pk),
        pk_t_rand_commitment: point(&p.pk_t_rand_commitment),
        challenge_response: scalar(&p.challenge_response),
    }
}

fn raw_elgamal(p: &HomoELGamalProof) -> RawElGamal<Secp256k1, Sha256> {
    RawElGamal { T: ge(&p.T), A3: ge(&p.A3), z1: fe(&p.z1), z2: fe(&p.z2), hash_choice: HashChoice::new() }
}

fn elgamal(p: &RawElGamal<Secp256k1, Sha256>) -> HomoELGamalProof {
    HomoELGamalProof { T: point(&p.T), A3: point(&p.A3), z1: scalar(&p.z1), z2: scalar(&p.z2) }
}

fn raw_message_b(m: &MtaMessageB) -> mta::MessageB {
    mta::MessageB { c: big(&m.c), b_proof: raw_dlog(&m.b_proof), beta_tag_proof: raw_dlog(&m.beta_tag_proof) }
}

fn message_b(m: &mta::MessageB) -> MtaMessageB {
    MtaMessageB { c: number(&m.c), b_proof: dlog(&m.b_proof), beta_tag_proof: dlog(&m.beta_tag_proof) }
}

fn raw_first_reveal(d: &Phase5Decommit1) -> gg18::Phase5ADecom1 {
    gg18::Phase5ADecom1 { V_i: ge(&d.V_i), A_i: ge(&d.A_i), B_i: ge(&d.B_i), blind_factor: big(&d.blind_factor) }
}

fn first_reveal(d: &gg18::Phase5ADecom1) -> Phase5Decommit1 {
    Phase5Decommit1 {
        V_i: point(&d.V_i),
        A_i: point(&d.A_i),
        B_i: point(&d.B_i),
        blind_factor: number(&d.blind_factor),
    }
}

fn raw_second_reveal(d: &Phase5Decommit2) -> gg18::Phase5DDecom2 {
    gg18::Phase5DDecom2 { u_i: ge(&d.u_i), t_i: ge(&d.t_i), blind_factor: big(&d.blind_factor) }
}

fn second_reveal(d: &gg18::Phase5DDecom2) -> Phase5Decommit2 {
    Phase5Decommit2 { u_i: point(&d.u_i), t_i: point(&d.t_i), blind_factor: number(&d.blind_factor) }
}

fn digest_of(text: &str) -> Vec<u8> {
    Sha256::digest(text.as_bytes()).to_vec()
}

fn chain_code() -> BigNumber {
    BigNumber::from_bytes((G::generator() * F::from(5u16)).to_bytes(true).to_vec())
}

/// The second party's long-term secrets.
struct Party2 {
    private: gg18::PartyPrivate,
}

/// Runs the four rounds of a key generation, or of a rotation of `old`, from
/// the first party's start and the second party's key share. `tamper` picks
/// one message of the second party to spoil.
fn finish_keygen(
    start: (KeyGenMessage1, Keys, KeyGenDecommit),
    keys2: gg18::Keys,
    old: Option<&MasterKey1>,
    tamper: u8,
) -> Result<(MasterKey1, Party2), ProtocolError> {
    let params = gg18::Parameters { threshold: 1, share_count: 2 };
    let (p1m1, keys1, decom1) = start;
    let (bc2, decom2) = keys2.phase1_broadcast_phase3_proof_of_correct_key();
    let mut p2m1 = KeyGenMessage1 { bc_i: broadcast(&bc2) };
    let p1m2 = match old {
        Some(_) => MasterKey1::rotation_second_message(decom1),
        None => MasterKey1::keygen_second_message(decom1),
    };
    let mut p2m2 = KeyGenMessage2 { decom_i: decommit(&decom2) };
    match tamper {
        1 => p2m2.decom_i.blind_factor = BigNumber::from_bytes(vec![7]),
        2 => p2m1.bc_i.correct_key_proof.sigma_vec[0] = BigNumber::from_bytes(vec![5]),
        3 => p2m1.bc_i.correct_key_proof.sigma_vec.truncate(3),
        4 => p2m1.bc_i.e.n = BigNumber::from_bytes(vec![0, 0]),
        5 => p2m2.decom_i.y_i = point(&G::generator().to_point()),
        _ => {},
    }
    let raw_decoms = [raw_decommit(&p1m2.decom_i), decom2.clone()];
    let raw_bcs = [raw_broadcast(&p1m1.bc_i), bc2.clone()];
    let third = match old {
        Some(key) => key.rotation_third_message(&keys1, p1m1, p2m1, p1m2, p2m2),
        None => MasterKey1::key_gen_third_message(&keys1, p1m1, p2m1, p1m2, p2m2),
    };
    let (p1m3, share1, y_vec, ek_vec) = third?;
    let (vss2, shares2, _) = keys2
        .phase1_verify_com_phase3_verify_correct_key_phase2_distribute(&params, &raw_decoms, &raw_bcs)
        .unwrap();
    assert_eq!(y_vec[0].to_bytes(), keys1.y_i.to_bytes());
    assert_eq!(ge(&y_vec[1]), keys2.y_i);
    let mut p2m3 = KeyGenMessage3 { vss_scheme: sharing(&vss2), secret_share: scalar(&shares2[0]) };
    match tamper {
        6 => p2m3.secret_share = small(1),
        7 => p2m3.vss_scheme.commitments[1] = point(&G::generator().to_point()),
        8 => p2m3.vss_scheme.commitments = Vec::new(),
        _ => {},
    }
    let y_raw = [ge(&y_vec[0]), ge(&y_vec[1])];
    let shares_for_2 = [fe(&p1m3.secret_share), shares2[1].clone()];
    let sharings = [raw_sharing(&p1m3.vss_scheme), vss2.clone()];
    let fourth = match old {
        Some(_) => MasterKey1::rotation_fourth_message(&keys1, p1m3, p2m3, share1, &y_vec),
        None => MasterKey1::key_gen_fourth_message(&keys1, p1m3, p2m3, share1, &y_vec),
    };
    let (p1m4, shared1, vss_vec) = fourth?;
    let (shared2, dlog2) = keys2
        .phase2_verify_vss_construct_keypair_phase3_pok_dlog(&params, &y_raw, &shares_for_2, &sharings, 2)
        .unwrap();
    assert_eq!(ge(&shared1.y), shared2.y);
    let mut p2m4 = KeyGenMessage4 { dlog_proof: dlog(&dlog2) };
    if tamper == 9 {
        p2m4.dlog_proof.challenge_response = small(1);
    }
    gg18::Keys::verify_dlog_proofs(&params, &[raw_dlog(&p1m4.dlog_proof), dlog2], &y_raw).unwrap();
    let key1 = match old {
        Some(key) => key.rotate_master_key(p1m4, p2m4, y_vec, keys1, shared1, vss_vec, ek_vec),
        None => MasterKey1::set_master_key(p1m4, p2m4, y_vec, keys1, shared1, vss_vec, ek_vec, &chain_code()),
    }?;
    assert_eq!(ge(&key1.public.q), shared2.y);
    Ok((key1, Party2 { private: gg18::PartyPrivate::set_private(keys2, shared2) }))
}

fn keygen(u1: Scalar, u2: Option<F>, tamper: u8) -> Result<(MasterKey1, Party2), ProtocolError> {
    let keys2 = match u2 {
        Some(u) => gg18::Keys::create_from(u, 2),
        None => gg18::Keys::create(2),
    };
    finish_keygen(MasterKey1::key_gen_first_message(u1), keys2, None, tamper)
}

fn rotate(key1: &MasterKey1, party2: &Party2, by: u16, by2: F, tamper: u8) -> Result<(MasterKey1, Party2), ProtocolError> {
    let start = key1.rotation_first_message(&Rotation { rotation: small(by) });
    let keys2 = party2.private.refresh_private_key(&by2, 2);
    finish_keygen(start, keys2, Some(key1), tamper)
}

/// Runs a signing session on a digest. `tamper` picks one message of the
/// second party to spoil.
fn sign(key1: &MasterKey1, party2: &Party2, digest: &[u8], tamper: u8) -> Result<Signature, ProtocolError> {
    let sharings: Vec<RawSharing<Secp256k1>> = key1.public.vss_scheme_vec.iter().map(raw_sharing).collect();
    let eks: Vec<kzen_paillier::EncryptionKey> = key1.public.paillier_key_vec.iter().map(raw_ek).collect();
    let q = ge(&key1.public.q);
    let message = BigInt::from_bytes(digest);
    let mut session = SignSession::new();

    let (p1m1, decommit1, keys1) = session.first_message(key1)?;
    let keys2 = gg18::SignKeys::create(&party2.private, &sharings[1], 1, &[0, 1]);
    let (com2, decommit2) = keys2.phase1_broadcast();
    let (m_a_k2, _) = mta::MessageA::a(&keys2.k_i, &eks[1], &[]);
    let p2m1 = SignMessage1 {
        com: SignBroadcastPhase1 { com: number(&com2.com) },
        m_a_k: MtaMessageA { c: number(&m_a_k2.c) },
    };

    let (p1m2, beta1, ni1) = session.second_message(key1, &p2m1, &keys1)?;
    let request = mta::MessageA { c: big(&p1m1.m_a_k.c), range_proofs: vec![] };
    let (m_b_gamma2, beta2, _, _) = mta::MessageB::b(&keys2.gamma_i, &eks[0], request.clone(), &[]).unwrap();
    let w2 = if tamper == 2 { F::from(5u16) } else { keys2.w_i.clone() };
    let (m_b_w2, ni2, _, _) = mta::MessageB::b(&w2, &eks[0], request, &[]).unwrap();
    let mut p2m2 = SignMessage2 { m_b_gamma: message_b(&m_b_gamma2), m_b_w: message_b(&m_b_w2) };
    if tamper == 1 {
        p2m2.m_b_gamma.b_proof.challenge_response = small(1);
    }

    let (p1m3, sigma1) = session.third_message(key1, &p2m2, &keys1, beta1, ni1)?;
    let alpha2 = raw_message_b(&p1m2.m_b_gamma).verify_proofs_get_alpha_gg18(&party2.private, &keys2.k_i).unwrap();
    let miu2 = raw_message_b(&p1m2.m_b_w).verify_proofs_get_alpha_gg18(&party2.private, &keys2.k_i).unwrap();
    let delta2 = keys2.phase2_delta_i(&[alpha2], &[beta2]);
    let sigma2 = keys2.phase2_sigma_i(&[miu2], &[ni2]);
    let mut p2m3 = SignMessage3 { delta: scalar(&delta2) };
    if tamper == 3 {
        p2m3.delta = scalar(&(F::zero() - fe(&p1m3.delta)));
    }

    let p1m4 = session.fourth_message(decommit1)?;
    let mut p2m4 = SignMessage4 {
        decommit: SignDecommitPhase1 {
            blind_factor: number(&decommit2.blind_factor),
            g_gamma_i: point(&decommit2.g_gamma_i),
        },
    };
    match tamper {
        4 => p2m4.decommit.blind_factor = BigNumber::from_bytes(vec![9]),
        5 => p2m4.decommit.g_gamma_i = point(&G::generator().to_point()),
        _ => {},
    }

    let raw_p1_decommit = gg18::SignDecommitPhase1 {
        blind_factor: big(&p1m4.decommit.blind_factor),
        g_gamma_i: ge(&p1m4.decommit.g_gamma_i),
    };
    let raw_p1_com = gg18::SignBroadcastPhase1 { com: big(&p1m1.com.com) };
    let raw_p1_b_proof = raw_dlog(&p1m2.m_b_gamma.b_proof);
    let raw_p1_delta = fe(&p1m3.delta);
    let fifth = session.fifth_message(key1, number(&message), sigma1, &keys1, p1m4, p1m3, p2m3, p2m4, p2m2, p2m1);
    let (p1m5, reveal1, elgamal1, dlog_rho1, local_sig1, r1) = fifth?;
    let delta_inv = gg18::SignKeys::phase3_reconstruct_delta(&[raw_p1_delta, delta2]);
    let r2 = gg18::SignKeys::phase4(&delta_inv, &[&raw_p1_b_proof], vec![raw_p1_decommit], &[raw_p1_com]).unwrap();
    let r2 = r2 + &decommit2.g_gamma_i * &delta_inv;
    assert_eq!(ge(&r1), r2);
    let local_sig2 = gg18::LocalSignature::phase5_local_sig(&keys2.k_i, &message, &r2, &sigma2, &q);
    let (com5, reveal2, elgamal2, dlog_rho2) = local_sig2.phase5a_broadcast_5b_zkproof();
    let p2m5 = SignMessage5 { phase5_com: Phase5Commit1 { com: number(&com5.com) } };

    let p1m6 = MasterKey1::sign_sixth_message(reveal1, elgamal1, dlog_rho1);
    let mut p2m6 = SignMessage6 {
        phase_5a_decom: first_reveal(&reveal2),
        helgamal_proof: elgamal(&elgamal2),
        dlog_proof_rho: dlog(&dlog_rho2),
    };
    match tamper {
        6 => p2m6.helgamal_proof.z1 = small(1),
        7 => p2m6.phase_5a_decom.blind_factor = BigNumber::from_bytes(vec![3]),
        8 => p2m6.dlog_proof_rho.challenge_response = small(1),
        _ => {},
    }

    let seventh = session.seventh_message(p1m6.clone(), p2m6.clone(), p2m5, &local_sig1, r1);
    let (p1m7, second_reveal1) = seventh?;
    let (com7, second_reveal2) = local_sig2
        .phase5c(
            &[raw_first_reveal(&p1m6.phase_5a_decom)],
            &[gg18::Phase5Com1 { com: big(&p1m5.phase5_com.com) }],
            &[raw_elgamal(&p1m6.helgamal_proof)],
            &[raw_dlog(&p1m6.dlog_proof_rho)],
            &reveal2.V_i,
            &r2,
        )
        .unwrap();
    let p2m7 = SignMessage7 { phase5_com2: Phase5Commit2 { com: number(&com7.com) } };

    let p1m8 = MasterKey1::sign_eighth_message(second_reveal1);
    let mut p2m8 = SignMessage8 { phase_5d_decom2: second_reveal(&second_reveal2) };
    if tamper == 9 {
        p2m8.phase_5d_decom2.blind_factor = BigNumber::from_bytes(vec![3]);
    }

    let s2 = local_sig2
        .phase5d(
            &[raw_second_reveal(&p1m8.phase_5d_decom2), second_reveal2],
            &[gg18::Phase5Com2 { com: big(&p1m7.phase5_com2.com) }, com7],
            &[raw_first_reveal(&p1m6.phase_5a_decom), reveal2],
        )
        .unwrap();
    let p1m9 = session.ninth_message(p1m6, p2m6, p1m7, p2m7, p1m8, p2m8, &local_sig1)?;
    assert_eq!(p1m9.s_i.to_bytes(), local_sig1.s_i.to_bytes());
    let mut p2m9 = SignMessage9 { s_i: scalar(&s2) };
    if tamper == 10 {
        p2m9.s_i = small(1);
    }
    assert_eq!(session.current(), SignState::ShareReleased);
    let signature = session.signature(p2m9, local_sig1);
    let end = if signature.is_ok() { SignState::Signed } else { SignState::Aborted };
    assert_eq!(session.current(), end);
    signature
}

/// Whether a verifier of libsecp256k1 accepts the signature.
fn standard_verifier_accepts(q: &Point, digest: &[u8], sig: &Signature) -> bool {
    let context = secp256k1::Secp256k1::verification_only();
    let key = secp256k1::PublicKey::from_slice(&q.to_bytes()).unwrap();
    let message = secp256k1::Message::from_slice(digest).unwrap();
    let mut compact = sig.r.to_bytes();
    compact.extend(sig.s.to_bytes());
    let signature = secp256k1::Signature::from_compact(&compact).unwrap();
    context.verify(&message, &signature, &key).is_ok()
}

fn error_of<T>(r: Result<T, ProtocolError>) -> ProtocolError {
    match r {
        Ok(_) => panic!("the run went through"),
        Err(e) => e,
    }
}

#[test]
fn keygen_with_fixed_scalars_gives_fixed_key_and_hello_signs() {
    let (key1, party2) = keygen(small(1), Some(F::from(2u16)), 0).unwrap();
    let three_g = G::generator() * F::from(3u16);
    assert_eq!(key1.public.q.to_bytes(), three_g.to_bytes(true).to_vec());
    assert_eq!(
        key1.public.q.to_bytes(),
        vec![
            0x02, 0xF9, 0x30, 0x8A, 0x01, 0x92, 0x58, 0xC3, 0x10, 0x49, 0x34, 0x4F, 0x85, 0xF8, 0x9D, 0x52, 0x29,
            0xB5, 0x31, 0xC8, 0x45, 0x83, 0x6F, 0x99, 0xB0, 0x86, 0x01, 0xF1, 0x13, 0xBC, 0xE0, 0x36, 0xF9,
        ]
    );
    assert!(key1.public.is_well_shaped());
    let digest = digest_of("hello");
    let sig = sign(&key1, &party2, &digest, 0).unwrap();
    assert!(standard_verifier_accepts(&key1.public.q, &digest, &sig));
    assert!(!standard_verifier_accepts(&key1.public.q, &digest_of("hullo"), &sig));
    assert!(sig.verify(&key1.public.q, &BigNumber::from_bytes(digest.clone())));
    assert!(!sig.verify(&key1.public.q, &BigNumber::from_bytes(digest_of("hullo"))));
    assert!(sig.recid <= 3);
}

#[test]
fn keygen_with_random_shares_agrees_and_signs() {
    let zero = Scalar::from_bytes(vec![0u8; 32]).unwrap();
    let (key1, party2) = keygen(zero, None, 0).unwrap();
    assert!(!key1.private.u_i.is_zero());
    let digest = digest_of("a message of some length");
    let sig = sign(&key1, &party2, &digest, 0).unwrap();
    assert!(standard_verifier_accepts(&key1.public.q, &digest, &sig));
    let again = sign(&key1, &party2, &digest, 0).unwrap();
    assert!(standard_verifier_accepts(&key1.public.q, &digest, &again));
    assert_ne!(again.r.to_bytes(), sig.r.to_bytes());
}

#[test]
fn first_message_holds_the_given_share() {
    let (m, keys, d) = MasterKey1::key_gen_first_message(small(7));
    assert_eq!(keys.u_i.to_bytes(), small(7).to_bytes());
    assert_eq!(ge(&keys.y_i), G::generator() * F::from(7u16));
    assert_eq!(keys.party_index, 1);
    assert_eq!(d.y_i.to_bytes(), keys.y_i.to_bytes());
    assert_eq!(m.bc_i.e.n.bytes, keys.ek.n.bytes);
    assert!(m.bc_i.correct_key_proof.sigma_vec.len() >= 11);
    let m2 = MasterKey1::keygen_second_message(d.clone());
    assert_eq!(m2.decom_i.y_i.to_bytes(), d.y_i.to_bytes());
    assert_eq!(m2.decom_i.blind_factor.bytes, d.blind_factor.bytes);
}

#[test]
fn spoiled_decommitment_is_an_invalid_commitment() {
    assert_eq!(error_of(keygen(small(1), None, 1)), ProtocolError::InvalidCommitment);
    assert_eq!(error_of(keygen(small(1), None, 5)), ProtocolError::InvalidCommitment);
}

#[test]
fn spoiled_key_proof_is_an_invalid_key_proof() {
    assert_eq!(error_of(keygen(small(1), None, 2)), ProtocolError::InvalidKeyProof);
    assert_eq!(error_of(keygen(small(1), None, 3)), ProtocolError::InvalidKeyProof);
    assert_eq!(error_of(keygen(small(1), None, 4)), ProtocolError::InvalidKeyProof);
}

#[test]
fn spoiled_share_is_an_invalid_vss_share() {
    assert_eq!(error_of(keygen(small(1), None, 6)), ProtocolError::InvalidVssShare);
    assert_eq!(error_of(keygen(small(1), None, 7)), ProtocolError::InvalidVssShare);
    assert_eq!(error_of(keygen(small(1), None, 8)), ProtocolError::InvalidVssShare);
}

#[test]
fn spoiled_proof_of_knowledge_is_an_invalid_dlog_proof() {
    assert_eq!(error_of(keygen(small(1), None, 9)), ProtocolError::InvalidDlogProof);
}

#[test]
fn spoiled_signing_messages_fail_with_their_error() {
    let (key1, party2) = keygen(small(3), Some(F::from(4u16)), 0).unwrap();
    let digest = digest_of("hello");
    assert_eq!(error_of(sign(&key1, &party2, &digest, 1)), ProtocolError::InvalidMtAProof);
    assert_eq!(error_of(sign(&key1, &party2, &digest, 2)), ProtocolError::ShareCommitmentMismatch);
    assert_eq!(error_of(sign(&key1, &party2, &digest, 3)), ProtocolError::SignatureAssemblyError);
    assert_eq!(error_of(sign(&key1, &party2, &digest, 4)), ProtocolError::InvalidCommitment);
    assert_eq!(error_of(sign(&key1, &party2, &digest, 5)), ProtocolError::InvalidCommitment);
}

#[test]
fn spoiled_reveals_fail_with_their_error() {
    let (key1, party2) = keygen(small(3), Some(F::from(4u16)), 0).unwrap();
    let digest = digest_of("hello");
    assert_eq!(error_of(sign(&key1, &party2, &digest, 6)), ProtocolError::InvalidCommitment);
    assert_eq!(error_of(sign(&key1, &party2, &digest, 7)), ProtocolError::InvalidCommitment);
    assert_eq!(error_of(sign(&key1, &party2, &digest, 8)), ProtocolError::InvalidCommitment);
    assert_eq!(error_of(sign(&key1, &party2, &digest, 9)), ProtocolError::InvalidCommitment);
    assert_eq!(error_of(sign(&key1, &party2, &digest, 10)), ProtocolError::SignatureAssemblyError);
}

#[test]
fn rotation_keeps_the_public_key_and_moves_the_shares() {
    let (key1, party2) = keygen(small(10), Some(F::from(20u16)), 0).unwrap();
    let digest = digest_of("hello");
    let before = sign(&key1, &party2, &digest, 0).unwrap();
    let (new1, new2) = rotate(&key1, &party2, 6, F::zero() - F::from(6u16), 0).unwrap();
    assert_eq!(new1.public.q.to_bytes(), key1.public.q.to_bytes());
    assert_eq!(new1.chain_code.bytes, key1.chain_code.bytes);
    assert_eq!(new1.private.u_i.to_bytes(), small(16).to_bytes());
    assert_ne!(new1.private.x_i.to_bytes(), key1.private.x_i.to_bytes());
    let after = sign(&new1, &new2, &digest, 0).unwrap();
    assert!(standard_verifier_accepts(&key1.public.q, &digest, &before));
    assert!(standard_verifier_accepts(&key1.public.q, &digest, &after));
    assert!(sign(&key1, &new2, &digest, 0).is_err());
}

#[test]
fn rotation_with_another_factor_is_a_mismatch() {
    let (key1, party2) = keygen(small(10), Some(F::from(20u16)), 0).unwrap();
    let r = rotate(&key1, &party2, 6, F::zero() - F::from(7u16), 0);
    assert_eq!(error_of(r), ProtocolError::RotationMismatch);
}

#[test]
fn child_keys_repeat_differ_and_sign() {
    let (key1, party2) = keygen(small(10), Some(F::from(20u16)), 0).unwrap();
    let path = || vec![BigNumber::from_bytes(vec![1]), BigNumber::from_bytes(vec![2, 5])];
    let child = key1.get_child(path()).unwrap();
    let again = key1.get_child(path()).unwrap();
    assert_eq!(child.public.q.to_bytes(), again.public.q.to_bytes());
    assert_eq!(child.private.x_i.to_bytes(), again.private.x_i.to_bytes());
    assert_eq!(child.private.u_i.to_bytes(), again.private.u_i.to_bytes());
    assert_eq!(child.chain_code.bytes, again.chain_code.bytes);
    let other = key1.get_child(vec![BigNumber::from_bytes(vec![1]), BigNumber::from_bytes(vec![2, 6])]).unwrap();
    assert_ne!(child.public.q.to_bytes(), other.public.q.to_bytes());
    assert_ne!(child.public.q.to_bytes(), key1.public.q.to_bytes());

    let tweak = fe(&child.private.x_i) - fe(&key1.private.x_i);
    assert_eq!(fe(&child.private.u_i) - fe(&key1.private.u_i), tweak);
    assert_eq!(ge(&child.public.q), ge(&key1.public.q) + G::generator() * &tweak);
    let old_first = &key1.public.vss_scheme_vec[0];
    let new_first = &child.public.vss_scheme_vec[0];
    assert_eq!(ge(&new_first.commitments[0]), ge(&old_first.commitments[0]) + G::generator() * &tweak);
    assert_eq!(new_first.commitments[1].to_bytes(), old_first.commitments[1].to_bytes());
    assert_eq!(
        child.public.vss_scheme_vec[1].commitments[0].to_bytes(),
        key1.public.vss_scheme_vec[1].commitments[0].to_bytes()
    );
    assert_eq!(child.chain_code.bytes.len(), 33);

    let two_steps = key1.get_child(vec![BigNumber::from_bytes(vec![1])]).unwrap();
    let two_steps = two_steps.get_child(vec![BigNumber::from_bytes(vec![2, 5])]).unwrap();
    assert_eq!(two_steps.public.q.to_bytes(), child.public.q.to_bytes());
    assert_eq!(two_steps.private.x_i.to_bytes(), child.private.x_i.to_bytes());

    let digest = digest_of("hello");
    let child2 = Party2 { private: party2.private.update_private_key(&F::zero(), &tweak) };
    let sig = sign(&child, &child2, &digest, 0).unwrap();
    assert!(standard_verifier_accepts(&child.public.q, &digest, &sig));
    assert!(!standard_verifier_accepts(&key1.public.q, &digest, &sig));
    assert_eq!(error_of(sign(&child, &party2, &digest, 0)), ProtocolError::ShareCommitmentMismatch);
}

#[test]
fn child_needs_a_path_and_a_chain_point() {
    let (mut key1, _) = keygen(small(10), Some(F::from(20u16)), 0).unwrap();
    assert_eq!(error_of(key1.get_child(Vec::new())), ProtocolError::MalformedInput);
    key1.chain_code = BigNumber::from_bytes(vec![1, 2, 3]);
    assert_eq!(error_of(key1.get_child(vec![BigNumber::from_bytes(vec![1])])), ProtocolError::MalformedInput);
    key1.chain_code = BigNumber::from_bytes(vec![2; 34]);
    assert_eq!(error_of(key1.get_child(vec![BigNumber::from_bytes(vec![1])])), ProtocolError::MalformedInput);
    key1.chain_code = chain_code();
    key1.public.paillier_key_vec.pop();
    assert_eq!(error_of(key1.get_child(vec![BigNumber::from_bytes(vec![1])])), ProtocolError::MalformedInput);
    assert_eq!(error_of(key1.sign_first_message()), ProtocolError::MalformedInput);
}

#[test]
fn imported_key_signs_under_the_source_public_key() {
    let (ek, dk) = Paillier::keypair().keys();
    let x1 = F::from(11u16);
    let x2 = F::from(13u16);
    let c_key = Paillier::encrypt(&ek, RawPlaintext::from(x1.to_bigint())).0.into_owned();
    let lindell = MasterKey2L {
        public: LindellPublic { paillier_pub: PaillierPublicKey { n: number(&ek.n) }, c_key: number(&c_key) },
        private: LindellPrivate { x2: scalar(&x2) },
    };
    let (m0, keys1, decom1) = MasterKey1::key_gen_zero_message_transform(&lindell).unwrap();
    assert_eq!(ge(&m0.message_b.b_proof.pk), G::generator() * &x2);
    let (alpha, _) = raw_message_b(&m0.message_b).verify_proofs_get_alpha(&dk, &x1).unwrap();
    assert_eq!(alpha.clone() + fe(&keys1.u_i), &x1 * &x2);
    let keys2 = gg18::Keys::create_from(alpha, 2);
    let (key1, party2) = finish_keygen((m0.p1m1, keys1, decom1), keys2, None, 0).unwrap();
    assert_eq!(ge(&key1.public.q), G::generator() * (&x1 * &x2));
    let digest = digest_of("hello");
    let sig = sign(&key1, &party2, &digest, 0).unwrap();
    assert!(standard_verifier_accepts(&key1.public.q, &digest, &sig));

    let mut broken = lindell.clone();
    broken.public.paillier_pub.n = BigNumber::from_bytes(vec![0]);
    assert_eq!(error_of(MasterKey1::key_gen_zero_message_transform(&broken)), ProtocolError::MalformedInput);
}

#[test]
fn master_key_needs_two_of_everything() {
    let (m, keys, d) = MasterKey1::key_gen_first_message(small(7));
    let proof = DLogProof {
        pk: keys.y_i.clone(),
        pk_t_rand_commitment: keys.y_i.clone(),
        challenge_response: small(1),
    };
    let m4 = KeyGenMessage4 { dlog_proof: proof };
    let shared = two_party_gg18::types::SharedKeys { y: keys.y_i.clone(), x_i: small(1) };
    let r = MasterKey1::set_master_key(
        m4.clone(),
        m4.clone(),
        vec![d.y_i.clone()],
        keys.clone(),
        shared.clone(),
        Vec::new(),
        vec![m.bc_i.e.clone()],
        &chain_code(),
    );
    assert_eq!(error_of(r), ProtocolError::MalformedInput);
    let sharing = VerifiableSS {
        parameters: ShamirSecretSharing { threshold: 1, share_count: 2 },
        commitments: vec![keys.y_i.clone(), keys.y_i.clone()],
    };
    let y_vec = vec![d.y_i.clone(), d.y_i.clone()];
    let fourth = MasterKey1::key_gen_fourth_message(
        &keys,
        KeyGenMessage3 { vss_scheme: sharing.clone(), secret_share: small(1) },
        KeyGenMessage3 { vss_scheme: sharing, secret_share: small(1) },
        small(1),
        &vec![d.y_i.clone()],
    );
    assert_eq!(error_of(fourth), ProtocolError::MalformedInput);
    assert_eq!(y_vec.len(), 2);
}

#[test]
fn session_keys_fit_the_long_term_share() {
    let (key1, _) = keygen(small(3), Some(F::from(4u16)), 0).unwrap();
    let (m, d, k) = key1.sign_first_message().unwrap();
    assert_eq!(fe(&k.w_i), F::from(2u16) * fe(&key1.private.x_i));
    assert_eq!(ge(&k.g_w_i), G::generator() * fe(&k.w_i));
    assert_eq!(ge(&k.g_gamma_i), G::generator() * fe(&k.gamma_i));
    assert_eq!(d.g_gamma_i.to_bytes(), k.g_gamma_i.to_bytes());
    assert!(!k.k_i.is_zero());
    assert!(!k.gamma_i.is_zero());
    assert!(!m.m_a_k.c.is_zero());
    let (_, _, other) = key1.sign_first_message().unwrap();
    assert_ne!(other.k_i.to_bytes(), k.k_i.to_bytes());
    assert_ne!(other.gamma_i.to_bytes(), k.gamma_i.to_bytes());
    let m4 = MasterKey1::sign_fourth_message(d.clone());
    assert_eq!(m4.decommit.g_gamma_i.to_bytes(), d.g_gamma_i.to_bytes());
}

#[test]
fn third_message_adds_the_shares_up() {
    let (key1, _) = keygen(small(3), Some(F::from(4u16)), 0).unwrap();
    let (_, _, k) = key1.sign_first_message().unwrap();
    let (delta, sigma) =
        conclude_third_message(&k, Some(small(11)), Some(small(12)), true, small(13), small(14)).unwrap();
    let expected_delta = fe(&k.k_i) * fe(&k.gamma_i) + F::from(11u16) + F::from(13u16);
    let expected_sigma = fe(&k.k_i) * fe(&k.w_i) + F::from(12u16) + F::from(14u16);
    assert_eq!(fe(&delta.delta), expected_delta);
    assert_eq!(fe(&sigma), expected_sigma);
    let r = conclude_third_message(&k, None, Some(small(12)), true, small(13), small(14));
    assert_eq!(error_of(r), ProtocolError::InvalidMtAProof);
    let r = conclude_third_message(&k, Some(small(11)), None, false, small(13), small(14));
    assert_eq!(error_of(r), ProtocolError::InvalidMtAProof);
    let r = conclude_third_message(&k, Some(small(11)), Some(small(12)), false, small(13), small(14));
    assert_eq!(error_of(r), ProtocolError::ShareCommitmentMismatch);
}

#[test]
fn key_generation_third_message_is_put_together_in_order() {
    let g = point(&G::generator().to_point());
    let h = point(&(G::generator() * F::from(2u16)));
    let e1 = PaillierPublicKey { n: BigNumber::from_bytes(vec![15]) };
    let e2 = PaillierPublicKey { n: BigNumber::from_bytes(vec![21]) };
    let sharing = VerifiableSS {
        parameters: ShamirSecretSharing { threshold: 1, share_count: 2 },
        commitments: vec![g.clone(), h.clone()],
    };
    let shares = vec![small(5), small(6)];
    let (m, own, y_vec, e_vec) =
        conclude_key_gen_third(true, Some((sharing.clone(), shares)), g.clone(), h.clone(), e1.clone(), e2.clone())
            .unwrap();
    assert_eq!(own.to_bytes(), small(5).to_bytes());
    assert_eq!(m.secret_share.to_bytes(), small(6).to_bytes());
    assert_eq!(m.vss_scheme.commitments[1].to_bytes(), h.to_bytes());
    assert_eq!(y_vec[0].to_bytes(), g.to_bytes());
    assert_eq!(y_vec[1].to_bytes(), h.to_bytes());
    assert_eq!(e_vec[0].n.bytes, vec![15]);
    assert_eq!(e_vec[1].n.bytes, vec![21]);
    let r = conclude_key_gen_third(false, None, g.clone(), h.clone(), e1.clone(), e2.clone());
    assert_eq!(error_of(r), ProtocolError::InvalidCommitment);
    let r = conclude_key_gen_third(true, None, g.clone(), h.clone(), e1.clone(), e2.clone());
    assert_eq!(error_of(r), ProtocolError::InvalidKeyProof);
    let r = conclude_key_gen_third(true, Some((sharing, vec![small(5)])), g, h, e1, e2);
    assert_eq!(error_of(r), ProtocolError::MalformedInput);
}

#[test]
fn signature_has_the_lower_s() {
    let (key1, party2) = keygen(small(3), Some(F::from(4u16)), 0).unwrap();
    let digest = digest_of("low");
    let sig = sign(&key1, &party2, &digest, 0).unwrap();
    let s = fe(&sig.s).to_bigint();
    let negated = (F::zero() - fe(&sig.s)).to_bigint();
    assert!(s <= negated);
    assert!(sig.recid <= 1);
}

#[test]
fn share_one_has_the_generator_for_its_public_point() {
    let (_, keys, _) = MasterKey1::key_gen_first_message(small(1));
    assert_eq!(
        keys.y_i.to_bytes(),
        vec![
            0x02, 0x79, 0xBE, 0x66, 0x7E, 0xF9, 0xDC, 0xBB, 0xAC, 0x55, 0xA0, 0x62, 0x95, 0xCE, 0x87, 0x0B, 0x07,
            0x02, 0x9B, 0xFC, 0xDB, 0x2D, 0xCE, 0x28, 0xD9, 0x59, 0xF2, 0x81, 0x5B, 0x16, 0xF8, 0x17, 0x98,
        ]
    );
    assert_eq!(keys.y_i.to_bytes(), G::generator().to_point().to_bytes(true).to_vec());
}

#[test]
fn session_refuses_phases_out_of_order_before_running_them() {
    let (key1, _) = keygen(small(3), Some(F::from(4u16)), 0).unwrap();
    let mut session = SignSession::new();
    let (m1, d1, k1) = session.first_message(&key1).unwrap();
    assert_eq!(session.current(), SignState::NonceCommitted);
    assert_eq!(error_of(session.first_message(&key1)), ProtocolError::NonceReuseViolation);
    assert_eq!(session.current(), SignState::Aborted);
    assert_eq!(error_of(session.second_message(&key1, &m1, &k1)), ProtocolError::MalformedInput);
    assert_eq!(session.current(), SignState::Aborted);

    let mut session = SignSession::new();
    assert_eq!(error_of(session.fourth_message(d1.clone())), ProtocolError::MalformedInput);
    assert_eq!(session.current(), SignState::Aborted);

    let mut session = SignSession::new();
    let (m1, _, k1) = session.first_message(&key1).unwrap();
    assert_eq!(error_of(session.third_message(&key1, &SignMessage2 {
        m_b_gamma: MtaMessageB { c: m1.m_a_k.c.clone(), b_proof: dlog_of(&k1.g_w_i), beta_tag_proof: dlog_of(&k1.g_w_i) },
        m_b_w: MtaMessageB { c: m1.m_a_k.c.clone(), b_proof: dlog_of(&k1.g_w_i), beta_tag_proof: dlog_of(&k1.g_w_i) },
    }, &k1, small(1), small(2))), ProtocolError::MalformedInput);
    assert_eq!(session.current(), SignState::Aborted);
}

fn dlog_of(p: &Point) -> DLogProof {
    DLogProof { pk: p.clone(), pk_t_rand_commitment: p.clone(), challenge_response: small(1) }
}

#[test]
fn failed_phase_ends_the_session() {
    let (key1, _) = keygen(small(3), Some(F::from(4u16)), 0).unwrap();
    let mut session = SignSession::new();
    let (m1, d1, k1) = session.first_message(&key1).unwrap();
    let (m2, beta, ni) = session.second_message(&key1, &m1, &k1).unwrap();
    assert_eq!(session.current(), SignState::MtAExchanged);
    let spoiled = SignMessage2 {
        m_b_gamma: MtaMessageB { c: m2.m_b_gamma.c.clone(), b_proof: dlog_of(&k1.g_w_i), beta_tag_proof: dlog_of(&k1.g_w_i) },
        m_b_w: m2.m_b_w.clone(),
    };
    assert_eq!(error_of(session.third_message(&key1, &spoiled, &k1, beta, ni)), ProtocolError::InvalidMtAProof);
    assert_eq!(session.current(), SignState::Aborted);
    assert_eq!(error_of(session.fourth_message(d1)), ProtocolError::MalformedInput);
}

#[test]
fn chain_code_is_read_as_a_number() {
    let (mut key1, _) = keygen(small(10), Some(F::from(20u16)), 0).unwrap();
    let path = || vec![BigNumber::from_bytes(vec![7])];
    let child = key1.get_child(path()).unwrap();
    let mut longer = vec![0u8, 0u8];
    longer.extend(chain_code().bytes);
    key1.chain_code = BigNumber::from_bytes(longer.clone());
    let same = key1.get_child(path()).unwrap();
    assert_eq!(same.public.q.to_bytes(), child.public.q.to_bytes());
    assert_eq!(same.chain_code.bytes, child.chain_code.bytes);
    longer[0] = 1;
    key1.chain_code = BigNumber::from_bytes(longer);
    assert_eq!(error_of(key1.get_child(path())), ProtocolError::MalformedInput);
    assert!(child.get_child(path()).is_ok());
}
