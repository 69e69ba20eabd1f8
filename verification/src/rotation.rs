//! Rotation: both parties move their shares and run key generation again,
//! and the joint public key stays.
use vstd::prelude::*;
use vstd::arithmetic::div_mod::{lemma_mod_sub_multiples_vanish, lemma_small_mod};
use crate::error::ProtocolError;
use crate::keygen::{PARTY_INDEX, first_message_fits, fourth_message_result, master_key_result, third_message_fits, third_message_result};
use crate::keygen_calls::{broadcast_keys, decommit_opens, key_proof_valid, refresh_keys};
use crate::master_key::MasterKey1;
use crate::point::{ec_add, point_add, Point};
use crate::scalar::{group_order, Scalar};
use crate::types::{
    DLogProof, KeyGenDecommit, KeyGenMessage1, KeyGenMessage2, KeyGenMessage3, KeyGenMessage4, Keys,
    PaillierPublicKey, Rotation, SharedKeys, VerifiableSS,
};

verus! {

/// Whether two new public shares still add up to the joint public key.
pub open spec fn rotation_keeps_key(q: Point, y1: Point, y2: Point) -> bool {
    ec_add(y1@, y2@) == q@
}

impl MasterKey1 {
    /// Starts a rotation: moves this party's first share by the rotation's
    /// value, and makes the first message for the moved share. A value that
    /// is not zero gives another share than the old one.
    pub fn rotation_first_message(&self, cf: &Rotation) -> (r: (KeyGenMessage1, Keys, KeyGenDecommit))
        ensures
            first_message_fits(r.0, r.1.y_i@, r.1.u_i@, r.1.ek.n@, r.1.party_index, r.2),
            r.1.u_i@ == (self.private.u_i@ + cf.rotation@) % group_order(),
            cf.rotation@ != 0 ==> r.1.u_i@ != self.private.u_i@,
    {
        let party1_keys = refresh_keys(&self.private, &cf.rotation, PARTY_INDEX);
        self.private.u_i.below_order();
        cf.rotation.below_order();
        proof {
            lemma_moved_share_differs(self.private.u_i@, cf.rotation@, group_order());
        }
        let (bc_i, decom_i) = broadcast_keys(&party1_keys);
        let party1_message1 = KeyGenMessage1 { bc_i };
        (party1_message1, party1_keys, decom_i)
    }

    /// The second message of a rotation: the decommitment of the first.
    pub fn rotation_second_message(decom_i: KeyGenDecommit) -> (r: KeyGenMessage2)
        ensures
            r.decom_i == decom_i,
    {
        KeyGenMessage2 { decom_i }
    }

    /// The third message of a rotation. Fails with `RotationMismatch` when
    /// this party's new public share and the one that the other party opened
    /// do not add up to the joint public key; else as the third message of a
    /// key generation does.
    pub fn rotation_third_message(
        &self,
        party1_keys: &Keys,
        party1_message1: KeyGenMessage1,
        party2_message1: KeyGenMessage1,
        party1_message2: KeyGenMessage2,
        party2_message2: KeyGenMessage2,
    ) -> (r: Result<(KeyGenMessage3, Scalar, Vec<Point>, Vec<PaillierPublicKey>), ProtocolError>)
        ensures
            !rotation_keeps_key(self.public.q, party1_keys.y_i, party2_message2.decom_i.y_i) ==> r == Err::<
                (KeyGenMessage3, Scalar, Vec<Point>, Vec<PaillierPublicKey>),
                _,
            >(ProtocolError::RotationMismatch),
            rotation_keeps_key(self.public.q, party1_keys.y_i, party2_message2.decom_i.y_i)
                ==> third_message_result(
                decommit_opens(party1_message2.decom_i, party1_message1.bc_i) && decommit_opens(
                    party2_message2.decom_i,
                    party2_message1.bc_i,
                ),
                key_proof_valid(party1_message1.bc_i) && key_proof_valid(party2_message1.bc_i),
                r,
            ),
            r.is_ok() ==> third_message_fits(
                *party1_keys,
                party1_message1.bc_i.e,
                party2_message1.bc_i.e,
                party2_message2.decom_i.y_i,
                r.unwrap(),
            ),
            r.is_ok() ==> rotation_keeps_key(self.public.q, r.unwrap().2@[0], r.unwrap().2@[1]),
    {
        let y_sum_new = point_add(&party1_keys.y_i, &party2_message2.decom_i.y_i);
        if !y_sum_new.same(&self.public.q) {
            return Err(ProtocolError::RotationMismatch);
        }
        MasterKey1::key_gen_third_message(
            party1_keys,
            party1_message1,
            party2_message1,
            party1_message2,
            party2_message2,
        )
    }

    /// The fourth message of a rotation: that of a key generation.
    pub fn rotation_fourth_message(
        party1_keys: &Keys,
        party1_message3: KeyGenMessage3,
        party2_message3: KeyGenMessage3,
        party1_ss_share_0: Scalar,
        y_vec: &Vec<Point>,
    ) -> (r: Result<(KeyGenMessage4, SharedKeys, Vec<VerifiableSS>), ProtocolError>)
        ensures
            fourth_message_result(party1_message3, party2_message3, party1_ss_share_0, y_vec@, r),
    {
        MasterKey1::key_gen_fourth_message(party1_keys, party1_message3, party2_message3, party1_ss_share_0, y_vec)
    }

    /// Ends a rotation: puts the new long-term key together as
    /// `set_master_key` does, with the chain code of the old key.
    pub fn rotate_master_key(
        &self,
        party1_message4: KeyGenMessage4,
        party2_message4: KeyGenMessage4,
        y_vec: Vec<Point>,
        party1_keys: Keys,
        party1_shared_keys: SharedKeys,
        vss_vec: Vec<VerifiableSS>,
        paillier_enc_vec: Vec<PaillierPublicKey>,
    ) -> (r: Result<MasterKey1, ProtocolError>)
        ensures
            master_key_result(
                party1_message4.dlog_proof,
                party2_message4.dlog_proof,
                y_vec@,
                party1_keys,
                party1_shared_keys,
                vss_vec,
                paillier_enc_vec,
                self.chain_code.bytes@,
                r,
            ),
    {
        MasterKey1::set_master_key(
            party1_message4,
            party2_message4,
            y_vec,
            party1_keys,
            party1_shared_keys,
            vss_vec,
            paillier_enc_vec,
            &self.chain_code,
        )
    }
}

/// A number below `n` that is moved by another, which is not zero, is not the
/// same number modulo `n` afterwards.
pub proof fn lemma_moved_share_differs(u: nat, f: nat, n: nat)
    requires
        u < n,
        f < n,
    ensures
        f != 0 ==> (u + f) % n != u,
{
    if f != 0 {
        if u + f < n {
            lemma_small_mod(u + f, n);
        } else {
            lemma_mod_sub_multiples_vanish((u + f) as int, n as int);
            lemma_small_mod((u + f - n) as nat, n);
        }
    }
}

/// Rotation keeps the joint public key and the chain code: where the third
/// message of a rotation found that the two new public shares add up to the
/// old key's joint public key, the key that `rotate_master_key` makes from
/// those shares has the same joint public key, the same chain code, and a
/// public part that is consistent again.
pub proof fn lemma_rotation_preserves_public_key(
    old_key: MasterKey1,
    y_vec: Seq<Point>,
    proofs: (DLogProof, DLogProof),
    keys: Keys,
    shared: SharedKeys,
    sharings: Vec<VerifiableSS>,
    paillier: Vec<PaillierPublicKey>,
    new_key: MasterKey1,
)
    requires
        y_vec.len() == 2,
        rotation_keeps_key(old_key.public.q, y_vec[0], y_vec[1]),
        master_key_result(
            proofs.0,
            proofs.1,
            y_vec,
            keys,
            shared,
            sharings,
            paillier,
            old_key.chain_code.bytes@,
            Ok(new_key),
        ),
    ensures
        new_key.public.q@ == old_key.public.q@,
        new_key.chain_code.bytes@ == old_key.chain_code.bytes@,
        new_key.public.consistent(),
{
}

} // verus!
