//! Distributed key generation: four messages from each party.
use vstd::prelude::*;
use crate::commitment::point_commitment_opens;
use crate::error::ProtocolError;
use crate::keygen_calls::{
    broadcast_keys, create_keys, create_keys_from, decommit_opens, dlog_proof_valid,
    key_proof_shaped, key_proof_valid, lindell_share_to_mta, share_consistent, share_fits,
    verify_broadcasts_and_share, verify_dlog_proofs, verify_shares_and_combine,
};
use crate::master_key::MasterKey1;
use crate::number::BigNumber;
use crate::point::{ec_add, ec_mul, generator_bytes, point_add, Point};
use crate::scalar::{group_order, Scalar};
use crate::sign::answer_made;
use crate::types::{
    encodings, DLogProof, KeyGenBroadcast, KeyGenDecommit, KeyGenMessage0Party1Transform, KeyGenMessage1,
    KeyGenMessage2, KeyGenMessage3, KeyGenMessage4, Keys, MasterKey2L, MasterKeyPublic,
    PaillierPublicKey, PrivateKeyMaterial, SharedKeys, VerifiableSS,
};

verus! {

/// The first party's index among the key shares.
pub const PARTY_INDEX: u16 = 1;

/// How many parties may be missing for the key to stay hidden: one.
pub const THRESHOLD: u16 = 1;

/// How many parties share the key: two.
pub const SHARE_COUNT: u16 = 2;

/// Whether a first message and its decommitment belong to the key share:
/// the share is the first party's, its public point belongs to its secret,
/// the message carries the share's Paillier key and a commitment to its
/// public point, and the decommitment opens that commitment.
pub open spec fn first_message_fits(m: KeyGenMessage1, y_i: Seq<u8>, u_i: nat, n: nat, index: u16, d: KeyGenDecommit) -> bool {
    &&& index == PARTY_INDEX
    &&& y_i == ec_mul(generator_bytes(), u_i)
    &&& m.bc_i.e.n@ == n
    &&& d.y_i@ == y_i
    &&& decommit_opens(d, m.bc_i)
}

/// Whether a broadcast has the shape that its proof's verifier reads.
fn broadcast_shaped(b: &KeyGenBroadcast) -> (r: bool)
    ensures
        r == key_proof_shaped(*b),
{
    !b.e.n.is_zero() && b.correct_key_proof.sigma_vec.len() >= 11
}

/// Whether a decommitment opens the commitment of a broadcast.
fn decommitment_opens(d: &KeyGenDecommit, b: &KeyGenBroadcast) -> (r: bool)
    ensures
        r == decommit_opens(*d, *b),
{
    point_commitment_opens(&b.com, &d.y_i, &d.blind_factor)
}

/// What the third message comes to, once the first two messages of both
/// parties have been checked. Fails with `InvalidCommitment` when `opened` is
/// false, else with `InvalidKeyProof` when the check left no sharing, else
/// with `MalformedInput` unless the sharing comes with two shares. On success
/// gives the third message, with the sharing and the second share, then the
/// first share, the two public shares and the two Paillier keys, each pair
/// with this party's first.
pub fn conclude_key_gen_third(
    opened: bool,
    shared: Option<(VerifiableSS, Vec<Scalar>)>,
    own_y: Point,
    other_y: Point,
    own_e: PaillierPublicKey,
    other_e: PaillierPublicKey,
) -> (r: Result<(KeyGenMessage3, Scalar, Vec<Point>, Vec<PaillierPublicKey>), ProtocolError>)
    ensures
        !opened ==> r == Err::<(KeyGenMessage3, Scalar, Vec<Point>, Vec<PaillierPublicKey>), _>(
            ProtocolError::InvalidCommitment,
        ),
        opened && shared.is_none() ==> r == Err::<(KeyGenMessage3, Scalar, Vec<Point>, Vec<PaillierPublicKey>), _>(
            ProtocolError::InvalidKeyProof,
        ),
        opened && shared.is_some() && shared.unwrap().1@.len() != 2 ==> r == Err::<
            (KeyGenMessage3, Scalar, Vec<Point>, Vec<PaillierPublicKey>),
            _,
        >(ProtocolError::MalformedInput),
        opened && shared.is_some() && shared.unwrap().1@.len() == 2 ==> {
            &&& r.is_ok()
            &&& r.unwrap().0.vss_scheme == shared.unwrap().0
            &&& r.unwrap().0.secret_share@ == shared.unwrap().1@[1]@
            &&& r.unwrap().1@ == shared.unwrap().1@[0]@
            &&& r.unwrap().2@ == seq![own_y, other_y]
            &&& r.unwrap().3@ == seq![own_e, other_e]
        },
{
    if !opened {
        return Err(ProtocolError::InvalidCommitment);
    }
    match shared {
        None => Err(ProtocolError::InvalidKeyProof),
        Some((vss_scheme, secret_shares)) => {
            if secret_shares.len() != 2 {
                return Err(ProtocolError::MalformedInput);
            }
            let key_gen_message3 = KeyGenMessage3 { vss_scheme, secret_share: secret_shares[1].duplicate() };
            let mut y_vec: Vec<Point> = Vec::new();
            y_vec.push(own_y);
            y_vec.push(other_y);
            let mut paillier_enc_vec: Vec<PaillierPublicKey> = Vec::new();
            paillier_enc_vec.push(own_e);
            paillier_enc_vec.push(other_e);
            assert(y_vec@ =~= seq![own_y, other_y]);
            assert(paillier_enc_vec@ =~= seq![own_e, other_e]);
            Ok((key_gen_message3, secret_shares[0].duplicate(), y_vec, paillier_enc_vec))
        },
    }
}

impl MasterKey1 {
    /// Starts a key generation that imports a key of the other two-party
    /// scheme: answers a share conversion against the ciphertext of that key,
    /// and makes the first message from the additive share that the
    /// conversion leaves here, so that the imported secret itself is never
    /// put together. Refuses a key whose Paillier modulus is zero.
    pub fn key_gen_zero_message_transform(lindell_mk2: &MasterKey2L) -> (r: Result<
        (KeyGenMessage0Party1Transform, Keys, KeyGenDecommit),
        ProtocolError,
    >)
        ensures
            r.is_err() == (lindell_mk2.public.paillier_pub.n@ == 0),
            r.is_err() ==> r == Err::<(KeyGenMessage0Party1Transform, Keys, KeyGenDecommit), _>(
                ProtocolError::MalformedInput,
            ),
            r.is_ok() ==> {
                let (m, keys, d) = r.unwrap();
                &&& first_message_fits(m.p1m1, keys.y_i@, keys.u_i@, keys.ek.n@, keys.party_index, d)
                &&& answer_made(
                    m.message_b,
                    lindell_mk2.public.paillier_pub.n@,
                    lindell_mk2.public.c_key@,
                    lindell_mk2.private.x2@,
                    keys.u_i@,
                )
            },
    {
        if lindell_mk2.public.paillier_pub.n.is_zero() {
            return Err(ProtocolError::MalformedInput);
        }
        let (message_b, beta) = lindell_share_to_mta(
            &lindell_mk2.private.x2,
            &lindell_mk2.public.paillier_pub,
            &lindell_mk2.public.c_key,
        );
        let party_keys = create_keys_from(&beta, PARTY_INDEX);
        let (bc_i, decom_i) = broadcast_keys(&party_keys);
        let party1_message1 = KeyGenMessage0Party1Transform { p1m1: KeyGenMessage1 { bc_i }, message_b };
        Ok((party1_message1, party_keys, decom_i))
    }

    /// Makes the first party's key share and its first message. A zero `u`
    /// asks for a secret share drawn at random; any other `u` is the secret
    /// share.
    pub fn key_gen_first_message(u: Scalar) -> (r: (KeyGenMessage1, Keys, KeyGenDecommit))
        ensures
            first_message_fits(r.0, r.1.y_i@, r.1.u_i@, r.1.ek.n@, r.1.party_index, r.2),
            u@ != 0 ==> r.1.u_i@ == u@,
            u@ == 0 ==> r.1.u_i@ != 0,
    {
        let party_keys = if u.is_zero() {
            create_keys(PARTY_INDEX)
        } else {
            create_keys_from(&u, PARTY_INDEX)
        };
        let (bc_i, decom_i) = broadcast_keys(&party_keys);
        let party1_message1 = KeyGenMessage1 { bc_i };
        (party1_message1, party_keys, decom_i)
    }

    /// The second message: the decommitment of the first.
    pub fn keygen_second_message(decom_i: KeyGenDecommit) -> (r: KeyGenMessage2)
        ensures
            r.decom_i == decom_i,
    {
        KeyGenMessage2 { decom_i }
    }

    /// Checks both parties' first two messages and shares this party's
    /// secret. Fails with `InvalidCommitment` when a decommitment does not
    /// open its commitment, else with `InvalidKeyProof` when a Paillier key
    /// comes without a valid proof. On success gives the third message (the
    /// sharing and the other party's share of it), this party's own share of
    /// it, the two public shares and the two Paillier keys, the first party's
    /// first.
    pub fn key_gen_third_message(
        party1_keys: &Keys,
        party1_message1: KeyGenMessage1,
        party2_message1: KeyGenMessage1,
        party1_message2: KeyGenMessage2,
        party2_message2: KeyGenMessage2,
    ) -> (r: Result<(KeyGenMessage3, Scalar, Vec<Point>, Vec<PaillierPublicKey>), ProtocolError>)
        ensures
            third_message_result(
                decommit_opens(party1_message2.decom_i, party1_message1.bc_i) && decommit_opens(
                    party2_message2.decom_i,
                    party2_message1.bc_i,
                ),
                key_proof_valid(party1_message1.bc_i) && key_proof_valid(party2_message1.bc_i),
                r,
            ),
            r.is_ok() ==> third_message_fits(
                *party1_keys,
                party1_message1.bc_i.e,
                party2_message1.bc_i.e,
                party2_message2.decom_i.y_i,
                r.unwrap(),
            ),
    {
        let opened = decommitment_opens(&party1_message2.decom_i, &party1_message1.bc_i)
            && decommitment_opens(&party2_message2.decom_i, &party2_message1.bc_i);
        let shaped = broadcast_shaped(&party1_message1.bc_i) && broadcast_shaped(&party2_message1.bc_i);
        let shared = if opened && shaped {
            verify_broadcasts_and_share(
                party1_keys,
                &party1_message2.decom_i,
                &party2_message2.decom_i,
                &party1_message1.bc_i,
                &party2_message1.bc_i,
                THRESHOLD,
                SHARE_COUNT,
            )
        } else {
            None
        };
        conclude_key_gen_third(
            opened,
            shared,
            party1_keys.y_i.duplicate(),
            party2_message2.decom_i.y_i,
            party1_message1.bc_i.e,
            party2_message1.bc_i.e,
        )
    }

    /// Checks the shares that both sharings give this party and combines
    /// them. Fails with `MalformedInput` unless there are two public shares,
    /// else with `InvalidVssShare` when a share does not fit its sharing or a
    /// sharing's constant commitment is not the public share beside it. On
    /// success gives the fourth message (a proof of knowledge of the combined
    /// share), the joint key with the combined share, and the two sharings,
    /// the first party's first.
    pub fn key_gen_fourth_message(
        party1_keys: &Keys,
        party1_message3: KeyGenMessage3,
        party2_message3: KeyGenMessage3,
        party1_ss_share_0: Scalar,
        y_vec: &Vec<Point>,
    ) -> (r: Result<(KeyGenMessage4, SharedKeys, Vec<VerifiableSS>), ProtocolError>)
        ensures
            fourth_message_result(party1_message3, party2_message3, party1_ss_share_0, y_vec@, r),
    {
        if y_vec.len() != 2 {
            return Err(ProtocolError::MalformedInput);
        }
        if party1_message3.vss_scheme.commitments.len() == 0 || party2_message3.vss_scheme.commitments.len() == 0 {
            return Err(ProtocolError::InvalidVssShare);
        }
        let combined = verify_shares_and_combine(
            party1_keys,
            &y_vec[0],
            &y_vec[1],
            &party1_ss_share_0,
            &party2_message3.secret_share,
            &party1_message3.vss_scheme,
            &party2_message3.vss_scheme,
            THRESHOLD,
            SHARE_COUNT,
            PARTY_INDEX,
        );
        match combined {
            None => Err(ProtocolError::InvalidVssShare),
            Some((shared_keys, dlog_proof)) => {
                let mut vss_vec: Vec<VerifiableSS> = Vec::new();
                vss_vec.push(party1_message3.vss_scheme);
                vss_vec.push(party2_message3.vss_scheme);
                Ok((KeyGenMessage4 { dlog_proof }, shared_keys, vss_vec))
            },
        }
    }

    /// Checks both parties' proofs of knowledge and puts the long-term key
    /// together. Fails with `MalformedInput` unless there are two public
    /// shares, two sharings of two commitments and two Paillier keys with
    /// moduli that are not zero; else with `InvalidDlogProof` when a proof
    /// does not verify; else with `InvalidVssShare` when a sharing's constant
    /// commitment is not the public share beside it. The joint public key is
    /// the sum of the two public shares.
    pub fn set_master_key(
        party1_message4: KeyGenMessage4,
        party2_message4: KeyGenMessage4,
        y_vec: Vec<Point>,
        party1_keys: Keys,
        party1_shared_keys: SharedKeys,
        vss_vec: Vec<VerifiableSS>,
        paillier_enc_vec: Vec<PaillierPublicKey>,
        chain_code: &BigNumber,
    ) -> (r: Result<MasterKey1, ProtocolError>)
        ensures
            master_key_result(
                party1_message4.dlog_proof,
                party2_message4.dlog_proof,
                y_vec@,
                party1_keys,
                party1_shared_keys,
                vss_vec,
                paillier_enc_vec,
                chain_code.bytes@,
                r,
            ),
    {
        if !(y_vec.len() == 2 && vss_vec.len() == 2 && paillier_enc_vec.len() == 2
            && vss_vec[0].commitments.len() == 2 && vss_vec[1].commitments.len() == 2
            && !paillier_enc_vec[0].n.is_zero() && !paillier_enc_vec[1].n.is_zero()) {
            return Err(ProtocolError::MalformedInput);
        }
        if !verify_dlog_proofs(
            &party1_message4.dlog_proof,
            &party2_message4.dlog_proof,
            &y_vec[0],
            &y_vec[1],
            THRESHOLD,
            SHARE_COUNT,
        ) {
            return Err(ProtocolError::InvalidDlogProof);
        }
        if !(vss_vec[0].commitments[0].same(&y_vec[0]) && vss_vec[1].commitments[0].same(&y_vec[1])) {
            return Err(ProtocolError::InvalidVssShare);
        }
        let q = point_add(&y_vec[0], &y_vec[1]);
        let master_key_public = MasterKeyPublic { q, vss_scheme_vec: vss_vec, paillier_key_vec: paillier_enc_vec };
        let master_key_private = PrivateKeyMaterial {
            u_i: party1_keys.u_i,
            x_i: party1_shared_keys.x_i,
            dk: party1_keys.dk,
        };
        Ok(MasterKey1 { public: master_key_public, private: master_key_private, chain_code: chain_code.duplicate() })
    }
}

/// Whether the outcome of the third message is the one for these inputs: the
/// sharing is one of this party's secret between two parties with threshold
/// one, the share kept fits it for the first party and the share sent for the
/// second, the public shares are this party's and the other's, in that order,
/// and so are the Paillier keys.
pub open spec fn third_message_fits(
    keys: Keys,
    e1: PaillierPublicKey,
    e2: PaillierPublicKey,
    y2: Point,
    out: (KeyGenMessage3, Scalar, Vec<Point>, Vec<PaillierPublicKey>),
) -> bool {
    let (m, share, y_vec, e_vec) = out;
    &&& m.vss_scheme.parameters.threshold == THRESHOLD
    &&& m.vss_scheme.parameters.share_count == SHARE_COUNT
    &&& m.vss_scheme.commitments@.len() == 2
    &&& m.vss_scheme.commitments@[0]@ == ec_mul(generator_bytes(), keys.u_i@)
    &&& share_fits(encodings(m.vss_scheme.commitments@), share@, 1)
    &&& share_fits(encodings(m.vss_scheme.commitments@), m.secret_share@, 2)
    &&& y_vec@.len() == 2
    &&& y_vec@[0]@ == keys.y_i@
    &&& y_vec@[1] == y2
    &&& e_vec@.len() == 2
    &&& e_vec@[0] == e1
    &&& e_vec@[1] == e2
}

/// Whether `r` is what the fourth message comes to on these inputs.
pub open spec fn fourth_message_result(
    m1: KeyGenMessage3,
    m2: KeyGenMessage3,
    share: Scalar,
    y_vec: Seq<Point>,
    r: Result<(KeyGenMessage4, SharedKeys, Vec<VerifiableSS>), ProtocolError>,
) -> bool {
    if y_vec.len() != 2 {
        r == Err::<(KeyGenMessage4, SharedKeys, Vec<VerifiableSS>), _>(ProtocolError::MalformedInput)
    } else if !(share_consistent(m1.vss_scheme, share, y_vec[0]) && share_consistent(
        m2.vss_scheme,
        m2.secret_share,
        y_vec[1],
    )) {
        r == Err::<(KeyGenMessage4, SharedKeys, Vec<VerifiableSS>), _>(ProtocolError::InvalidVssShare)
    } else {
        &&& r.is_ok()
        &&& r.unwrap().1.y@ == ec_add(y_vec[0]@, y_vec[1]@)
        &&& r.unwrap().1.x_i@ == (share@ + m2.secret_share@) % group_order()
        &&& r.unwrap().0.dlog_proof.pk@ == ec_mul(generator_bytes(), r.unwrap().1.x_i@)
        &&& dlog_proof_valid(r.unwrap().0.dlog_proof)
        &&& r.unwrap().2@.len() == 2
        &&& r.unwrap().2@[0] == m1.vss_scheme
        &&& r.unwrap().2@[1] == m2.vss_scheme
    }
}

/// Why `set_master_key` refuses these inputs, if it does: their shape is
/// judged first, then the two proofs of knowledge, then whether each
/// sharing's constant commitment is the public share beside it.
pub open spec fn master_key_refusal(
    p1: DLogProof,
    p2: DLogProof,
    y_vec: Seq<Point>,
    vss_vec: Seq<VerifiableSS>,
    e_vec: Seq<PaillierPublicKey>,
) -> Option<ProtocolError> {
    if !(y_vec.len() == 2 && vss_vec.len() == 2 && e_vec.len() == 2 && vss_vec[0].commitments@.len() == 2
        && vss_vec[1].commitments@.len() == 2 && e_vec[0].n@ > 0 && e_vec[1].n@ > 0) {
        Some(ProtocolError::MalformedInput)
    } else if !(dlog_proof_valid(p1) && dlog_proof_valid(p2)) {
        Some(ProtocolError::InvalidDlogProof)
    } else if !(vss_vec[0].commitments@[0]@ == y_vec[0]@ && vss_vec[1].commitments@[0]@ == y_vec[1]@) {
        Some(ProtocolError::InvalidVssShare)
    } else {
        None
    }
}

/// Whether `r` is what `set_master_key` comes to on these inputs: the
/// refusal, or the key whose public part holds the sum of the two public
/// shares with the sharings and Paillier keys given, and whose secret part
/// holds the key share's secret, the combined share and the decryption key.
/// The chain code is the one given, byte for byte.
pub open spec fn master_key_result(
    p1: DLogProof,
    p2: DLogProof,
    y_vec: Seq<Point>,
    keys: Keys,
    shared: SharedKeys,
    vss_vec: Vec<VerifiableSS>,
    e_vec: Vec<PaillierPublicKey>,
    chain_code: Seq<u8>,
    r: Result<MasterKey1, ProtocolError>,
) -> bool {
    match master_key_refusal(p1, p2, y_vec, vss_vec@, e_vec@) {
        Some(e) => r == Err::<MasterKey1, _>(e),
        None => {
            &&& r.is_ok()
            &&& r.unwrap().public.q@ == ec_add(y_vec[0]@, y_vec[1]@)
            &&& r.unwrap().public.vss_scheme_vec == vss_vec
            &&& r.unwrap().public.paillier_key_vec == e_vec
            &&& r.unwrap().public.well_shaped()
            &&& r.unwrap().public.consistent()
            &&& r.unwrap().private.u_i == keys.u_i
            &&& r.unwrap().private.x_i == shared.x_i
            &&& r.unwrap().private.dk == keys.dk
            &&& r.unwrap().chain_code.bytes@ == chain_code
        },
    }
}

/// Both parties reach the same joint public key. The key is the sum of the
/// two public shares that the parties opened to each other, the first
/// party's first, and of nothing else: two long-term keys that
/// `set_master_key` made from the same public shares have the same joint
/// public key, whatever key shares, sharings, Paillier keys and chain codes
/// went into them. The joint key that the fourth message gave is that sum
/// too.
pub proof fn lemma_joint_key_agrees(
    y_vec: Seq<Point>,
    proofs: (DLogProof, DLogProof, DLogProof, DLogProof),
    keys: (Keys, Keys),
    shared: (SharedKeys, SharedKeys),
    sharings: (Vec<VerifiableSS>, Vec<VerifiableSS>),
    paillier: (Vec<PaillierPublicKey>, Vec<PaillierPublicKey>),
    chain_codes: (Seq<u8>, Seq<u8>),
    one: MasterKey1,
    other: MasterKey1,
)
    requires
        master_key_result(
            proofs.0,
            proofs.1,
            y_vec,
            keys.0,
            shared.0,
            sharings.0,
            paillier.0,
            chain_codes.0,
            Ok(one),
        ),
        master_key_result(
            proofs.2,
            proofs.3,
            y_vec,
            keys.1,
            shared.1,
            sharings.1,
            paillier.1,
            chain_codes.1,
            Ok(other),
        ),
        shared.0.y@ == ec_add(y_vec[0]@, y_vec[1]@),
    ensures
        one.public.q@ == other.public.q@,
        one.public.q@ == ec_add(y_vec[0]@, y_vec[1]@),
        one.public.q@ == shared.0.y@,
        one.public.consistent() && other.public.consistent(),
{
}

/// What the third message of a key generation comes to, given whether both
/// commitments opened and whether both key proofs are valid: the commitments
/// are judged first.
pub open spec fn third_message_result<T>(opened: bool, proved: bool, r: Result<T, ProtocolError>) -> bool {
    if !opened {
        r == Err::<T, _>(ProtocolError::InvalidCommitment)
    } else if !proved {
        r == Err::<T, _>(ProtocolError::InvalidKeyProof)
    } else {
        r.is_ok()
    }
}

} // verus!
