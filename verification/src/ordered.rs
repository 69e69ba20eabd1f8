//! The phases of signing, run in their order.
//!
//! Each function here asks the session whether its phase is the awaited one,
//! runs the phase, and records what came of it. A phase out of order, or one
//! that the session has behind it, is refused before anything is computed,
//! and so is every phase after a failure.
use vstd::prelude::*;
use crate::error::ProtocolError;
use crate::master_key::MasterKey1;
use crate::number::BigNumber;
use crate::point::Point;
use crate::scalar::Scalar;
use crate::session::{failure_of, in_order, SignPhase, SignSession, SignState};
use crate::sign::{
    sign_fifth_result, sign_first_result, sign_ninth_result, sign_second_result,
    sign_seventh_result, sign_third_result, signature_result,
};
use crate::types::{
    DLogProof, HomoELGamalProof, LocalSig, Phase5Decommit1, Phase5Decommit2, SignDecommitPhase1,
    SignMessage1, SignMessage2, SignMessage3, SignMessage4, SignMessage5, SignMessage6,
    SignMessage7, SignMessage8, SignMessage9, SignSessionKeys, Signature,
};

verus! {

impl SignSession {
    /// Why the phase is refused, if it is; the session then stands aborted.
    fn refused(&mut self, phase: SignPhase) -> (r: Option<ProtocolError>)
        ensures
            r.is_some() == !old(self).state().awaits(phase),
            r.is_some() ==> r == old(self).state().refusal(phase) && final(self).state() == SignState::Aborted,
            r.is_none() ==> final(self).state() == old(self).state(),
    {
        match self.current().permits(phase) {
            Ok(()) => None,
            Err(e) => {
                let _ = self.record(phase, None);
                Some(e)
            },
        }
    }

    /// Records what an awaited phase came to, and hands it on.
    fn settle<T>(&mut self, phase: SignPhase, r: Result<T, ProtocolError>) -> (out: Result<T, ProtocolError>)
        requires
            old(self).state().awaits(phase),
        ensures
            out == r,
            final(self).state() == old(self).state().after(phase, failure_of(r)),
    {
        match r {
            Ok(v) => {
                let _ = self.record(phase, None);
                Ok(v)
            },
            Err(e) => {
                let _ = self.record(phase, Some(e));
                Err(e)
            },
        }
    }

    /// The first message, at the beginning of the session.
    pub fn first_message(&mut self, key: &MasterKey1) -> (r: Result<
        (SignMessage1, SignDecommitPhase1, SignSessionKeys),
        ProtocolError,
    >)
        ensures
            in_order(old(self).state(), SignPhase::CommitNonce, r, final(self).state()),
            old(self).state().awaits(SignPhase::CommitNonce) ==> sign_first_result(*key, r),
    {
        match self.refused(SignPhase::CommitNonce) {
            Some(e) => Err(e),
            None => {
                let r = key.sign_first_message();
                self.settle(SignPhase::CommitNonce, r)
            },
        }
    }

    /// The second message, after the first.
    pub fn second_message(
        &mut self,
        key: &MasterKey1,
        party2_message1: &SignMessage1,
        party1_sign_keys: &SignSessionKeys,
    ) -> (r: Result<(SignMessage2, Scalar, Scalar), ProtocolError>)
        ensures
            in_order(old(self).state(), SignPhase::ExchangeMtA, r, final(self).state()),
            old(self).state().awaits(SignPhase::ExchangeMtA) ==> sign_second_result(
                *key,
                *party2_message1,
                *party1_sign_keys,
                r,
            ),
    {
        match self.refused(SignPhase::ExchangeMtA) {
            Some(e) => Err(e),
            None => {
                let r = key.sign_second_message(party2_message1, party1_sign_keys);
                self.settle(SignPhase::ExchangeMtA, r)
            },
        }
    }

    /// The third message, after the second.
    pub fn third_message(
        &mut self,
        key: &MasterKey1,
        party2_message2: &SignMessage2,
        party1_sign_keys: &SignSessionKeys,
        beta: Scalar,
        ni: Scalar,
    ) -> (r: Result<(SignMessage3, Scalar), ProtocolError>)
        ensures
            in_order(old(self).state(), SignPhase::RevealDelta, r, final(self).state()),
            old(self).state().awaits(SignPhase::RevealDelta) ==> sign_third_result(
                *key,
                *party2_message2,
                *party1_sign_keys,
                beta,
                ni,
                r,
            ),
    {
        match self.refused(SignPhase::RevealDelta) {
            Some(e) => Err(e),
            None => {
                let r = key.sign_third_message(party2_message2, party1_sign_keys, beta, ni);
                self.settle(SignPhase::RevealDelta, r)
            },
        }
    }

    /// The fourth message, after the third: the decommitment is let out no
    /// earlier.
    pub fn fourth_message(&mut self, decommit: SignDecommitPhase1) -> (r: Result<SignMessage4, ProtocolError>)
        ensures
            in_order(old(self).state(), SignPhase::RevealNonce, r, final(self).state()),
            old(self).state().awaits(SignPhase::RevealNonce) ==> r.is_ok() && r.unwrap().decommit == decommit,
    {
        match self.refused(SignPhase::RevealNonce) {
            Some(e) => Err(e),
            None => {
                let r = Ok(MasterKey1::sign_fourth_message(decommit));
                self.settle(SignPhase::RevealNonce, r)
            },
        }
    }

    /// The fifth message, after the fourth. The sixth is made of what this
    /// gives.
    pub fn fifth_message(
        &mut self,
        key: &MasterKey1,
        message: BigNumber,
        sigma: Scalar,
        party1_sign_keys: &SignSessionKeys,
        party1_message4: SignMessage4,
        party1_message3: SignMessage3,
        party2_message3: SignMessage3,
        party2_message4: SignMessage4,
        party2_message2: SignMessage2,
        party2_message1: SignMessage1,
    ) -> (r: Result<(SignMessage5, Phase5Decommit1, HomoELGamalProof, DLogProof, LocalSig, Point), ProtocolError>)
        ensures
            in_order(old(self).state(), SignPhase::CommitShares, r, final(self).state()),
            old(self).state().awaits(SignPhase::CommitShares) ==> sign_fifth_result(
                *key,
                message,
                sigma,
                *party1_sign_keys,
                party1_message4,
                party1_message3,
                party2_message3,
                party2_message4,
                party2_message2,
                party2_message1,
                r,
            ),
    {
        match self.refused(SignPhase::CommitShares) {
            Some(e) => Err(e),
            None => {
                let r = key.sign_fifth_message(
                    message,
                    sigma,
                    party1_sign_keys,
                    party1_message4,
                    party1_message3,
                    party2_message3,
                    party2_message4,
                    party2_message2,
                    party2_message1,
                );
                self.settle(SignPhase::CommitShares, r)
            },
        }
    }

    /// The seventh message, after the fifth and sixth. The eighth is made of
    /// what this gives.
    pub fn seventh_message(
        &mut self,
        party1_message6: SignMessage6,
        party2_message6: SignMessage6,
        party2_message5: SignMessage5,
        local_sig: &LocalSig,
        R: Point,
    ) -> (r: Result<(SignMessage7, Phase5Decommit2), ProtocolError>)
        ensures
            in_order(old(self).state(), SignPhase::RevealShares, r, final(self).state()),
            old(self).state().awaits(SignPhase::RevealShares) ==> sign_seventh_result(
                party1_message6,
                party2_message6,
                party2_message5,
                *local_sig,
                R,
                r,
            ),
    {
        match self.refused(SignPhase::RevealShares) {
            Some(e) => Err(e),
            None => {
                let r = MasterKey1::sign_seventh_message(
                    party1_message6,
                    party2_message6,
                    party2_message5,
                    local_sig,
                    R,
                );
                self.settle(SignPhase::RevealShares, r)
            },
        }
    }

    /// The ninth message, after the seventh and eighth.
    pub fn ninth_message(
        &mut self,
        party1_message6: SignMessage6,
        party2_message6: SignMessage6,
        party1_message7: SignMessage7,
        party2_message7: SignMessage7,
        party1_message8: SignMessage8,
        party2_message8: SignMessage8,
        local_sig: &LocalSig,
    ) -> (r: Result<SignMessage9, ProtocolError>)
        ensures
            in_order(old(self).state(), SignPhase::ReleaseShare, r, final(self).state()),
            old(self).state().awaits(SignPhase::ReleaseShare) ==> sign_ninth_result(
                party1_message6,
                party2_message6,
                party1_message7,
                party2_message7,
                party1_message8,
                party2_message8,
                *local_sig,
                r,
            ),
    {
        match self.refused(SignPhase::ReleaseShare) {
            Some(e) => Err(e),
            None => {
                let r = MasterKey1::sign_ninth_message(
                    party1_message6,
                    party2_message6,
                    party1_message7,
                    party2_message7,
                    party1_message8,
                    party2_message8,
                    local_sig,
                );
                self.settle(SignPhase::ReleaseShare, r)
            },
        }
    }

    /// The signature, after the ninth message.
    pub fn signature(&mut self, party2_message9: SignMessage9, local_sig: LocalSig) -> (r: Result<
        Signature,
        ProtocolError,
    >)
        ensures
            in_order(old(self).state(), SignPhase::Sign, r, final(self).state()),
            old(self).state().awaits(SignPhase::Sign) ==> signature_result(party2_message9, local_sig, r),
    {
        match self.refused(SignPhase::Sign) {
            Some(e) => Err(e),
            None => {
                let r = MasterKey1::output_signature(party2_message9, local_sig);
                self.settle(SignPhase::Sign, r)
            },
        }
    }
}

} // verus!
