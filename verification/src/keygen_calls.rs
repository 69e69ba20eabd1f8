//! The calls of key generation into `multi_party_ecdsa`.
use vstd::prelude::*;
use curv::arithmetic::Converter;
use curv::elliptic::curves::Scalar as Fe;
use curv::BigInt;
use multi_party_ecdsa::protocols::multi_party_ecdsa::gg_2018::party_i as gg18;
use multi_party_ecdsa::protocols::two_party_ecdsa::lindell_2017::party_two as lindell;
use crate::commitment::opens_to_point;
use crate::number::{values, BigNumber};
use crate::point::{ec_add, ec_mul, generator_bytes, Point};
use crate::raw::{
    dlog_proof_from_raw, message_b_from_raw, raw_broadcast, raw_decommit, raw_dlog_proof,
    raw_encryption_key, raw_keys, raw_point, raw_private, raw_sharing, secret_key_from_raw,
    RawDLogProof,
};
use crate::scalar::{group_order, Scalar};
use crate::sign_calls::{mta_answer_ciphertext, negated};
use crate::types::{
    encodings, CorrectKeyProof, DLogProof, KeyGenBroadcast, KeyGenDecommit, Keys, MtaMessageB,
    PaillierPublicKey, PrivateKeyMaterial, ShamirSecretSharing, SharedKeys, VerifiableSS,
};

verus! {

/// Whether `NiCorrectKeyProof::verify` of `zk_paillier` accepts the proof,
/// given as its numbers, for the Paillier modulus `n`.
pub uninterp spec fn key_proof_accepts(n: nat, sigma: Seq<nat>) -> bool;

/// Whether `VerifiableSS::validate_share` of `curv` accepts the share for the
/// party with the given index, against the commitments given in compressed
/// form.
pub uninterp spec fn share_fits(commitments: Seq<Seq<u8>>, share: nat, index: nat) -> bool;

/// Whether `DLogProof::verify` of `curv` accepts the proof with these three
/// fields.
pub uninterp spec fn dlog_accepts(pk: Seq<u8>, commitment: Seq<u8>, response: nat) -> bool;

/// Whether the decommitment opens the commitment of the broadcast.
pub open spec fn decommit_opens(d: KeyGenDecommit, b: KeyGenBroadcast) -> bool {
    opens_to_point(b.com@, d.y_i@, d.blind_factor@)
}

/// Whether the proof of a broadcast has the shape that the verifier reads:
/// a modulus that is not zero and at least eleven numbers.
pub open spec fn key_proof_shaped(b: KeyGenBroadcast) -> bool {
    b.e.n@ > 0 && b.correct_key_proof.sigma_vec@.len() >= 11
}

/// Whether the Paillier key of a broadcast comes with a valid proof.
pub open spec fn key_proof_valid(b: KeyGenBroadcast) -> bool {
    key_proof_shaped(b) && key_proof_accepts(b.e.n@, values(b.correct_key_proof.sigma_vec@))
}

/// Whether a share for the first party fits a sharing whose constant
/// commitment is the public share `y`.
pub open spec fn share_consistent(v: VerifiableSS, share: Scalar, y: Point) -> bool {
    &&& v.commitments@.len() > 0
    &&& share_fits(encodings(v.commitments@), share@, 1)
    &&& v.commitments@[0]@ == y@
}

/// Whether a proof of knowledge of a discrete logarithm verifies.
pub open spec fn dlog_proof_valid(p: DLogProof) -> bool {
    dlog_accepts(p.pk@, p.pk_t_rand_commitment@, p.challenge_response@)
}

/// `Keys::create` of `multi_party_ecdsa`: a secret share drawn at random and
/// not zero, its public point, a fresh Paillier key pair.
#[verifier::external_body]
pub(crate) fn create_keys(index: u16) -> (r: Keys)
    ensures
        r.party_index == index,
        r.u_i@ != 0,
        r.y_i@ == ec_mul(generator_bytes(), r.u_i@),
{
    let k = gg18::Keys::create(index);
    Keys {
        u_i: Scalar { bytes: k.u_i.to_bytes().to_vec() },
        y_i: Point { bytes: k.y_i.to_bytes(true).to_vec() },
        dk: secret_key_from_raw(&k.dk),
        ek: PaillierPublicKey { n: BigNumber { bytes: k.ek.n.to_bytes() } },
        party_index: k.party_index,
    }
}

/// `Keys::create_from` of `multi_party_ecdsa`: the given secret share, its
/// public point, a fresh Paillier key pair.
#[verifier::external_body]
pub(crate) fn create_keys_from(u: &Scalar, index: u16) -> (r: Keys)
    ensures
        r.party_index == index,
        r.u_i@ == u@,
        r.y_i@ == ec_mul(generator_bytes(), r.u_i@),
{
    let k = gg18::Keys::create_from(Fe::from_bytes(&u.bytes).unwrap(), index);
    Keys {
        u_i: Scalar { bytes: k.u_i.to_bytes().to_vec() },
        y_i: Point { bytes: k.y_i.to_bytes(true).to_vec() },
        dk: secret_key_from_raw(&k.dk),
        ek: PaillierPublicKey { n: BigNumber { bytes: k.ek.n.to_bytes() } },
        party_index: k.party_index,
    }
}

/// `PartyPrivate::refresh_private_key` of `multi_party_ecdsa`: the first
/// share moved by `factor`, its public point, a fresh Paillier key pair.
#[verifier::external_body]
pub(crate) fn refresh_keys(private: &PrivateKeyMaterial, factor: &Scalar, index: u16) -> (r: Keys)
    ensures
        r.party_index == index,
        r.u_i@ == (private.u_i@ + factor@) % group_order(),
        r.y_i@ == ec_mul(generator_bytes(), r.u_i@),
{
    let k = raw_private(private).refresh_private_key(&Fe::from_bytes(&factor.bytes).unwrap(), index);
    Keys {
        u_i: Scalar { bytes: k.u_i.to_bytes().to_vec() },
        y_i: Point { bytes: k.y_i.to_bytes(true).to_vec() },
        dk: secret_key_from_raw(&k.dk),
        ek: PaillierPublicKey { n: BigNumber { bytes: k.ek.n.to_bytes() } },
        party_index: k.party_index,
    }
}

/// `Keys::phase1_broadcast_phase3_proof_of_correct_key` of
/// `multi_party_ecdsa`: the broadcast carries the key share's Paillier key
/// and a commitment to its public point, which the decommitment opens.
#[verifier::external_body]
pub(crate) fn broadcast_keys(keys: &Keys) -> (r: (KeyGenBroadcast, KeyGenDecommit))
    ensures
        r.0.e.n@ == keys.ek.n@,
        r.1.y_i@ == keys.y_i@,
        decommit_opens(r.1, r.0),
{
    let (b, d) = raw_keys(keys).inner.phase1_broadcast_phase3_proof_of_correct_key();
    let sigma_vec = b.correct_key_proof.sigma_vec.iter().map(|s| BigNumber { bytes: s.to_bytes() }).collect();
    let broadcast = KeyGenBroadcast {
        e: PaillierPublicKey { n: BigNumber { bytes: b.e.n.to_bytes() } },
        com: BigNumber { bytes: b.com.to_bytes() },
        correct_key_proof: CorrectKeyProof { sigma_vec },
    };
    let blind_factor = BigNumber { bytes: d.blind_factor.to_bytes() };
    (broadcast, KeyGenDecommit { blind_factor, y_i: Point { bytes: d.y_i.to_bytes(true).to_vec() } })
}

/// `Keys::phase1_verify_com_phase3_verify_correct_key_phase2_distribute` of
/// `multi_party_ecdsa`, for two parties and threshold one. It succeeds exactly
/// when both decommitments open their commitments and both key proofs are
/// accepted; it then shares the key share's secret between the two parties,
/// with a commitment to the secret in the first place and the shares of the
/// parties with index 1 and 2, in that order.
#[verifier::external_body]
pub(crate) fn verify_broadcasts_and_share(
    keys: &Keys,
    d1: &KeyGenDecommit,
    d2: &KeyGenDecommit,
    b1: &KeyGenBroadcast,
    b2: &KeyGenBroadcast,
    threshold: u16,
    share_count: u16,
) -> (r: Option<(VerifiableSS, Vec<Scalar>)>)
    requires
        key_proof_shaped(*b1),
        key_proof_shaped(*b2),
        threshold == 1,
        share_count == 2,
    ensures
        r.is_some() == (decommit_opens(*d1, *b1) && decommit_opens(*d2, *b2)
            && key_proof_accepts(b1.e.n@, values(b1.correct_key_proof.sigma_vec@))
            && key_proof_accepts(b2.e.n@, values(b2.correct_key_proof.sigma_vec@))),
        r.is_some() ==> r.unwrap().0.parameters.threshold == threshold
            && r.unwrap().0.parameters.share_count == share_count
            && r.unwrap().0.commitments@.len() == 2
            && r.unwrap().0.commitments@[0]@ == ec_mul(generator_bytes(), keys.u_i@)
            && r.unwrap().1@.len() == 2
            && share_fits(encodings(r.unwrap().0.commitments@), r.unwrap().1@[0]@, 1)
            && share_fits(encodings(r.unwrap().0.commitments@), r.unwrap().1@[1]@, 2),
{
    let p = gg18::Parameters { threshold, share_count };
    let d = [raw_decommit(d1), raw_decommit(d2)];
    let b = [raw_broadcast(b1), raw_broadcast(b2)];
    let (v, s, _) = raw_keys(keys).inner.phase1_verify_com_phase3_verify_correct_key_phase2_distribute(&p, &d, &b).ok()?;
    let parameters = ShamirSecretSharing { threshold: v.parameters.threshold, share_count: v.parameters.share_count };
    let commitments = v.commitments.iter().map(|c| Point { bytes: c.to_bytes(true).to_vec() }).collect();
    let shares = s.iter().map(|x| Scalar { bytes: x.to_bytes().to_vec() }).collect();
    Some((VerifiableSS { parameters, commitments }, shares))
}

/// `Keys::phase2_verify_vss_construct_keypair_phase3_pok_dlog` of
/// `multi_party_ecdsa`, for two parties and threshold one. It succeeds exactly
/// when each share fits its sharing for the party with the given index and
/// each sharing's constant commitment is the public share beside it; it then
/// gives the sum of the public shares, the sum of the secret shares and a
/// proof of knowledge of the latter, which verifies.
#[verifier::external_body]
pub(crate) fn verify_shares_and_combine(
    keys: &Keys,
    y1: &Point,
    y2: &Point,
    s1: &Scalar,
    s2: &Scalar,
    v1: &VerifiableSS,
    v2: &VerifiableSS,
    threshold: u16,
    share_count: u16,
    index: u16,
) -> (r: Option<(SharedKeys, DLogProof)>)
    requires
        v1.commitments@.len() > 0,
        v2.commitments@.len() > 0,
        threshold == 1,
        share_count == 2,
    ensures
        r.is_some() == (share_fits(encodings(v1.commitments@), s1@, index as nat) && v1.commitments@[0]@ == y1@
            && share_fits(encodings(v2.commitments@), s2@, index as nat) && v2.commitments@[0]@ == y2@),
        r.is_some() ==> r.unwrap().0.y@ == ec_add(y1@, y2@)
            && r.unwrap().0.x_i@ == (s1@ + s2@) % group_order()
            && r.unwrap().1.pk@ == ec_mul(generator_bytes(), r.unwrap().0.x_i@)
            && dlog_accepts(
            r.unwrap().1.pk@,
            r.unwrap().1.pk_t_rand_commitment@,
            r.unwrap().1.challenge_response@,
        ),
{
    let p = gg18::Parameters { threshold, share_count };
    let y = [raw_point(y1).inner, raw_point(y2).inner];
    let s = [Fe::from_bytes(&s1.bytes).unwrap(), Fe::from_bytes(&s2.bytes).unwrap()];
    let v = [raw_sharing(v1).inner, raw_sharing(v2).inner];
    let (k, d) = raw_keys(keys).inner.phase2_verify_vss_construct_keypair_phase3_pok_dlog(&p, &y, &s, &v, index).ok()?;
    let shared = SharedKeys { y: Point { bytes: k.y.to_bytes(true).to_vec() }, x_i: Scalar { bytes: k.x_i.to_bytes().to_vec() } };
    Some((shared, dlog_proof_from_raw(&RawDLogProof { inner: d })))
}

/// `Keys::verify_dlog_proofs` of `multi_party_ecdsa`, for two parties:
/// whether both proofs verify.
#[verifier::external_body]
pub(crate) fn verify_dlog_proofs(
    p1: &DLogProof,
    p2: &DLogProof,
    y1: &Point,
    y2: &Point,
    threshold: u16,
    share_count: u16,
) -> (r: bool)
    requires
        threshold == 1,
        share_count == 2,
    ensures
        r == (dlog_accepts(p1.pk@, p1.pk_t_rand_commitment@, p1.challenge_response@)
            && dlog_accepts(p2.pk@, p2.pk_t_rand_commitment@, p2.challenge_response@)),
{
    let p = gg18::Parameters { threshold, share_count };
    let proofs = [raw_dlog_proof(p1).inner, raw_dlog_proof(p2).inner];
    let y = [raw_point(y1).inner, raw_point(y2).inner];
    gg18::Keys::verify_dlog_proofs(&p, &proofs, &y).is_ok()
}

/// `Party2Private::to_mta_message_b` of `multi_party_ecdsa`, on the private
/// key of the other scheme that holds the share `x2`: the answer of a share
/// conversion against the ciphertext `c_key`, and the additive share `beta`
/// that stays with the caller. The answer's ciphertext is the one that
/// `MessageB::b` makes for `x2` under the key against `c_key` with the two
/// values it draws, `beta` is the negation of the first of them, and the
/// answer proves knowledge of `x2` and of the negation of `beta`.
#[verifier::external_body]
pub(crate) fn lindell_share_to_mta(x2: &Scalar, ek: &PaillierPublicKey, c_key: &BigNumber) -> (r: (MtaMessageB, Scalar))
    requires
        ek.n@ > 0,
    ensures
        r.0.b_proof.pk@ == ec_mul(generator_bytes(), x2@),
        r.0.beta_tag_proof.pk@ == ec_mul(generator_bytes(), ((group_order() - r.1@) % (group_order() as int)) as nat),
        exists|beta_tag: nat, randomness: nat|
            r.0.c@ == #[trigger] mta_answer_ciphertext(ek.n@, c_key@, x2@, beta_tag, randomness) && r.1@ == negated(
                beta_tag % group_order(),
            ),
{
    let (_, pair) = lindell::KeyGenFirstMsg::create_with_fixed_secret_share(Fe::from_bytes(&x2.bytes).unwrap());
    let private = lindell::Party2Private::set_private_key(&pair);
    let (m, beta) = private.to_mta_message_b(&raw_encryption_key(ek), &BigInt::from_bytes(&c_key.bytes));
    (message_b_from_raw(&m), Scalar { bytes: beta.to_bytes().to_vec() })
}

} // verus!
