//! The protocol's values in the form that the outside crates take them.
//!
//! The library holds every value as bytes. The functions here rewrite a value,
//! field for field, as the type that `multi_party_ecdsa`, `curv` or `paillier`
//! defines for it. Nothing is proved of them; the functions that call the
//! outside crates use them on their arguments.
use vstd::prelude::*;
use curv::arithmetic::Converter;
use curv::cryptographic_primitives::proofs::sigma_correct_homomorphic_elgamal_enc as elgamal;
use curv::cryptographic_primitives::proofs::sigma_dlog;
use curv::cryptographic_primitives::secret_sharing::feldman_vss;
use curv::elliptic::curves::{Point as Ge, Scalar as Fe, Secp256k1};
use curv::{BigInt, HashChoice};
use multi_party_ecdsa::protocols::multi_party_ecdsa::gg_2018::party_i as gg18;
use multi_party_ecdsa::utilities::mta;
use sha2::Sha256;
use zk_paillier::zkproofs::NiCorrectKeyProof;
use crate::number::BigNumber;
use crate::point::Point;
use crate::scalar::Scalar;
use crate::types::{
    DLogProof, PaillierPublicKey, HomoELGamalProof, KeyGenBroadcast, KeyGenDecommit,
    Keys, LocalSig, MtaMessageB, PaillierSecretKey, PrivateKeyMaterial, Phase5Decommit1, Phase5Decommit2, SignSessionKeys,
    VerifiableSS,
};

verus! {

#[verifier::external_type_specification]
#[verifier::external_body]
pub struct ExDecryptionKey(kzen_paillier::DecryptionKey);

#[verifier::external_type_specification]
#[verifier::external_body]
pub struct ExEncryptionKey(kzen_paillier::EncryptionKey);

#[verifier::external_type_specification]
#[verifier::external_body]
pub struct ExKeyGenBroadcastMessage1(gg18::KeyGenBroadcastMessage1);

#[verifier::external_type_specification]
#[verifier::external_body]
pub struct ExKeyGenDecommitMessage1(gg18::KeyGenDecommitMessage1);

#[verifier::external_type_specification]
#[verifier::external_body]
pub struct ExPartyPrivate(gg18::PartyPrivate);

#[verifier::external_type_specification]
#[verifier::external_body]
pub struct ExSignKeys(gg18::SignKeys);

#[verifier::external_type_specification]
#[verifier::external_body]
pub struct ExLocalSignature(gg18::LocalSignature);

#[verifier::external_type_specification]
#[verifier::external_body]
pub struct ExPhase5ADecom1(gg18::Phase5ADecom1);

#[verifier::external_type_specification]
#[verifier::external_body]
pub struct ExPhase5DDecom2(gg18::Phase5DDecom2);

#[verifier::external_type_specification]
#[verifier::external_body]
pub struct ExMessageB(mta::MessageB);

/// A `Keys` of `multi_party_ecdsa`. Its type is generic over a curve, which
/// is why it is held here and not named in signatures.
#[verifier::external_body]
pub(crate) struct RawKeys {
    pub(crate) inner: gg18::Keys,
}

/// A `VerifiableSS` of `curv`, for secp256k1.
#[verifier::external_body]
pub(crate) struct RawSharing {
    pub(crate) inner: feldman_vss::VerifiableSS<Secp256k1>,
}

/// A `DLogProof` of `curv`, for secp256k1 and SHA-256.
#[verifier::external_body]
pub(crate) struct RawDLogProof {
    pub(crate) inner: sigma_dlog::DLogProof<Secp256k1, Sha256>,
}

/// A `HomoELGamalProof` of `curv`, for secp256k1 and SHA-256.
#[verifier::external_body]
pub(crate) struct RawElGamalProof {
    pub(crate) inner: elgamal::HomoELGamalProof<Secp256k1, Sha256>,
}

/// A `Point` of `curv`, for secp256k1.
#[verifier::external_body]
pub(crate) struct RawPoint {
    pub(crate) inner: Ge<Secp256k1>,
}

/// `Point::from_bytes` of `curv` on the compressed form of a point.
#[verifier::external_body]
pub(crate) fn raw_point(p: &Point) -> RawPoint {
    RawPoint { inner: Ge::from_bytes(&p.bytes).unwrap() }
}

/// The proof of knowledge with the fields of a `DLogProof` of `curv`.
#[verifier::external_body]
pub(crate) fn dlog_proof_from_raw(p: &RawDLogProof) -> DLogProof {
    DLogProof {
        pk: Point { bytes: p.inner.pk.to_bytes(true).to_vec() },
        pk_t_rand_commitment: Point { bytes: p.inner.pk_t_rand_commitment.to_bytes(true).to_vec() },
        challenge_response: Scalar { bytes: p.inner.challenge_response.to_bytes().to_vec() },
    }
}

/// The proof with the fields of a `HomoELGamalProof` of `curv`.
#[verifier::external_body]
pub(crate) fn elgamal_proof_from_raw(p: &RawElGamalProof) -> HomoELGamalProof {
    HomoELGamalProof {
        T: Point { bytes: p.inner.T.to_bytes(true).to_vec() },
        A3: Point { bytes: p.inner.A3.to_bytes(true).to_vec() },
        z1: Scalar { bytes: p.inner.z1.to_bytes().to_vec() },
        z2: Scalar { bytes: p.inner.z2.to_bytes().to_vec() },
    }
}

/// The answer of a share conversion with the fields of a `MessageB` of
/// `multi_party_ecdsa`.
#[verifier::external_body]
pub(crate) fn message_b_from_raw(m: &mta::MessageB) -> MtaMessageB {
    MtaMessageB {
        c: BigNumber { bytes: m.c.to_bytes() },
        b_proof: dlog_proof_from_raw(&RawDLogProof { inner: m.b_proof.clone() }),
        beta_tag_proof: dlog_proof_from_raw(&RawDLogProof { inner: m.beta_tag_proof.clone() }),
    }
}

/// The `EncryptionKey` of `paillier` with the given modulus, made by its
/// `From<MinimalEncryptionKey>`.
#[verifier::external_body]
pub(crate) fn raw_encryption_key(e: &PaillierPublicKey) -> kzen_paillier::EncryptionKey {
    let n = BigInt::from_bytes(&e.n.bytes);
    kzen_paillier::EncryptionKey::from(kzen_paillier::MinimalEncryptionKey { n })
}

/// The `DecryptionKey` of `paillier` with the same two primes.
#[verifier::external_body]
pub(crate) fn raw_decryption_key(d: &PaillierSecretKey) -> kzen_paillier::DecryptionKey {
    kzen_paillier::DecryptionKey { p: BigInt::from_bytes(&d.p.bytes), q: BigInt::from_bytes(&d.q.bytes) }
}

/// The key with the two primes of a `DecryptionKey` of `paillier`.
#[verifier::external_body]
pub(crate) fn secret_key_from_raw(d: &kzen_paillier::DecryptionKey) -> PaillierSecretKey {
    PaillierSecretKey { p: BigNumber { bytes: d.p.to_bytes() }, q: BigNumber { bytes: d.q.to_bytes() } }
}

/// The `Keys` of `multi_party_ecdsa` with the same fields.
#[verifier::external_body]
pub(crate) fn raw_keys(k: &Keys) -> RawKeys {
    RawKeys {
        inner: gg18::Keys {
            u_i: Fe::from_bytes(&k.u_i.bytes).unwrap(),
            y_i: Ge::from_bytes(&k.y_i.bytes).unwrap(),
            dk: raw_decryption_key(&k.dk),
            ek: raw_encryption_key(&k.ek),
            party_index: k.party_index,
        },
    }
}

/// The `VerifiableSS` of `curv` with the same parameters and commitments.
#[verifier::external_body]
pub(crate) fn raw_sharing(v: &VerifiableSS) -> RawSharing {
    let parameters = feldman_vss::ShamirSecretSharing {
        threshold: v.parameters.threshold,
        share_count: v.parameters.share_count,
    };
    let commitments = v.commitments.iter().map(|c| Ge::from_bytes(&c.bytes).unwrap()).collect();
    RawSharing { inner: feldman_vss::VerifiableSS { parameters, commitments } }
}

/// The `DLogProof` of `curv` with the same fields.
#[verifier::external_body]
pub(crate) fn raw_dlog_proof(p: &DLogProof) -> RawDLogProof {
    RawDLogProof {
        inner: sigma_dlog::DLogProof {
            pk: Ge::from_bytes(&p.pk.bytes).unwrap(),
            pk_t_rand_commitment: Ge::from_bytes(&p.pk_t_rand_commitment.bytes).unwrap(),
            challenge_response: Fe::from_bytes(&p.challenge_response.bytes).unwrap(),
            hash_choice: HashChoice::new(),
        },
    }
}

/// The `HomoELGamalProof` of `curv` with the same fields.
#[verifier::external_body]
pub(crate) fn raw_elgamal_proof(p: &HomoELGamalProof) -> RawElGamalProof {
    RawElGamalProof {
        inner: elgamal::HomoELGamalProof {
            T: Ge::from_bytes(&p.T.bytes).unwrap(),
            A3: Ge::from_bytes(&p.A3.bytes).unwrap(),
            z1: Fe::from_bytes(&p.z1.bytes).unwrap(),
            z2: Fe::from_bytes(&p.z2.bytes).unwrap(),
            hash_choice: HashChoice::new(),
        },
    }
}

/// The `KeyGenBroadcastMessage1` of `multi_party_ecdsa` with the same fields.
#[verifier::external_body]
pub(crate) fn raw_broadcast(b: &KeyGenBroadcast) -> gg18::KeyGenBroadcastMessage1 {
    let sigma_vec = b.correct_key_proof.sigma_vec.iter().map(|s| BigInt::from_bytes(&s.bytes)).collect();
    gg18::KeyGenBroadcastMessage1 {
        e: raw_encryption_key(&b.e),
        com: BigInt::from_bytes(&b.com.bytes),
        correct_key_proof: NiCorrectKeyProof { sigma_vec },
    }
}

/// The `KeyGenDecommitMessage1` of `multi_party_ecdsa` with the same fields.
#[verifier::external_body]
pub(crate) fn raw_decommit(d: &KeyGenDecommit) -> gg18::KeyGenDecommitMessage1 {
    gg18::KeyGenDecommitMessage1 {
        blind_factor: BigInt::from_bytes(&d.blind_factor.bytes),
        y_i: Ge::from_bytes(&d.y_i.bytes).unwrap(),
    }
}

/// The `PartyPrivate` of `multi_party_ecdsa` with the same two shares and
/// decryption key, made by its `set_private`. The public values that
/// `set_private` also takes are dropped by it; zeros stand in for them.
#[verifier::external_body]
pub(crate) fn raw_private(p: &PrivateKeyMaterial) -> gg18::PartyPrivate {
    let u_i = Fe::from_bytes(&p.u_i.bytes).unwrap();
    let x_i = Fe::from_bytes(&p.x_i.bytes).unwrap();
    let ek = kzen_paillier::EncryptionKey { n: BigInt::from(0), nn: BigInt::from(0) };
    let keys = gg18::Keys { u_i, y_i: Ge::zero(), dk: raw_decryption_key(&p.dk), ek, party_index: 0 };
    gg18::PartyPrivate::set_private(keys, gg18::SharedKeys { y: Ge::zero(), x_i })
}

/// The `SignKeys` of `multi_party_ecdsa` with the same fields.
#[verifier::external_body]
pub(crate) fn raw_sign_keys(k: &SignSessionKeys) -> gg18::SignKeys {
    gg18::SignKeys {
        w_i: Fe::from_bytes(&k.w_i.bytes).unwrap(),
        g_w_i: Ge::from_bytes(&k.g_w_i.bytes).unwrap(),
        k_i: Fe::from_bytes(&k.k_i.bytes).unwrap(),
        gamma_i: Fe::from_bytes(&k.gamma_i.bytes).unwrap(),
        g_gamma_i: Ge::from_bytes(&k.g_gamma_i.bytes).unwrap(),
    }
}

/// The `MessageB` of `multi_party_ecdsa` with the same fields.
#[verifier::external_body]
pub(crate) fn raw_message_b(m: &MtaMessageB) -> mta::MessageB {
    mta::MessageB {
        c: BigInt::from_bytes(&m.c.bytes),
        b_proof: raw_dlog_proof(&m.b_proof).inner,
        beta_tag_proof: raw_dlog_proof(&m.beta_tag_proof).inner,
    }
}

/// The `LocalSignature` of `multi_party_ecdsa` with the same fields.
#[verifier::external_body]
pub(crate) fn raw_local_signature(s: &LocalSig) -> gg18::LocalSignature {
    gg18::LocalSignature {
        l_i: Fe::from_bytes(&s.l_i.bytes).unwrap(),
        rho_i: Fe::from_bytes(&s.rho_i.bytes).unwrap(),
        R: Ge::from_bytes(&s.R.bytes).unwrap(),
        s_i: Fe::from_bytes(&s.s_i.bytes).unwrap(),
        m: BigInt::from_bytes(&s.m.bytes),
        y: Ge::from_bytes(&s.y.bytes).unwrap(),
    }
}

/// The `Phase5ADecom1` of `multi_party_ecdsa` with the same fields.
#[verifier::external_body]
pub(crate) fn raw_phase5a_decom(d: &Phase5Decommit1) -> gg18::Phase5ADecom1 {
    gg18::Phase5ADecom1 {
        V_i: Ge::from_bytes(&d.V_i.bytes).unwrap(),
        A_i: Ge::from_bytes(&d.A_i.bytes).unwrap(),
        B_i: Ge::from_bytes(&d.B_i.bytes).unwrap(),
        blind_factor: BigInt::from_bytes(&d.blind_factor.bytes),
    }
}

/// The `Phase5DDecom2` of `multi_party_ecdsa` with the same fields.
#[verifier::external_body]
pub(crate) fn raw_phase5d_decom(d: &Phase5Decommit2) -> gg18::Phase5DDecom2 {
    gg18::Phase5DDecom2 {
        u_i: Ge::from_bytes(&d.u_i.bytes).unwrap(),
        t_i: Ge::from_bytes(&d.t_i.bytes).unwrap(),
        blind_factor: BigInt::from_bytes(&d.blind_factor.bytes),
    }
}

} // verus!
