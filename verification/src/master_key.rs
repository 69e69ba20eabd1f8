//! The long-term key of the first party.
use vstd::prelude::*;
use crate::number::BigNumber;
use crate::point::ec_add;
use crate::types::{MasterKeyPublic, PrivateKeyMaterial};

verus! {

impl MasterKeyPublic {
    /// The shape that a joint public key of two parties with threshold one
    /// has: two sharings of two commitments each, and two Paillier keys whose
    /// moduli are not zero.
    pub open spec fn well_shaped(&self) -> bool {
        &&& self.vss_scheme_vec@.len() == 2
        &&& self.paillier_key_vec@.len() == 2
        &&& self.vss_scheme_vec@[0].commitments@.len() == 2
        &&& self.vss_scheme_vec@[1].commitments@.len() == 2
        &&& self.paillier_key_vec@[0].n@ > 0
        &&& self.paillier_key_vec@[1].n@ > 0
    }

    /// Whether the joint public key is the sum of the constant commitments
    /// of the two parties' sharings.
    pub open spec fn consistent(&self) -> bool {
        self.q@ == ec_add(self.vss_scheme_vec@[0].commitments@[0]@, self.vss_scheme_vec@[1].commitments@[0]@)
    }
}

/// The first party's long-term key: the joint public key, this party's
/// secrets, and the chain code for deriving children.
#[derive(Clone, Debug)]
pub struct MasterKey1 {
    pub public: MasterKeyPublic,
    pub private: PrivateKeyMaterial,
    pub chain_code: BigNumber,
}

impl MasterKeyPublic {
    /// Whether the joint public key has the shape of one of two parties.
    pub fn is_well_shaped(&self) -> (r: bool)
        ensures
            r == self.well_shaped(),
    {
        self.vss_scheme_vec.len() == 2 && self.paillier_key_vec.len() == 2
            && self.vss_scheme_vec[0].commitments.len() == 2
            && self.vss_scheme_vec[1].commitments.len() == 2
            && !self.paillier_key_vec[0].n.is_zero()
            && !self.paillier_key_vec[1].n.is_zero()
    }
}

} // verus!
