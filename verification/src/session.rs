//! The order of a signing session's phases.
//!
//! A session goes through its phases one by one. A phase that fails, comes
//! out of order or comes twice ends the session for good.
use vstd::prelude::*;
use crate::error::ProtocolError;

verus! {

/// Where a signing session stands.
#[derive(Clone, Copy, Debug, PartialEq, Eq, Structural)]
pub enum SignState {
    /// Nothing has been sent.
    Init,
    /// The commitment to the nonce's blinding point and the request for a
    /// share conversion have been sent.
    NonceCommitted,
    /// The share conversions have been answered.
    MtAExchanged,
    /// The `delta` share has been sent.
    DeltaRevealed,
    /// The blinding point has been decommitted.
    NonceRevealed,
    /// The commitment to the first reveal has been sent and opened.
    SharesCommitted,
    /// The commitment to the second reveal has been sent and opened.
    SharesRevealed,
    /// This party's signature share has been sent.
    ShareReleased,
    /// The signature is out.
    Signed,
    /// A phase failed or came out of order. The session cannot go on.
    Aborted,
}

/// The phases of a signing session, in their order.
#[derive(Clone, Copy, Debug, PartialEq, Eq, Structural)]
pub enum SignPhase {
    /// The first message.
    CommitNonce,
    /// The second message.
    ExchangeMtA,
    /// The third message.
    RevealDelta,
    /// The fourth message.
    RevealNonce,
    /// The fifth and sixth messages.
    CommitShares,
    /// The seventh and eighth messages.
    RevealShares,
    /// The ninth message.
    ReleaseShare,
    /// The signature.
    Sign,
}

impl SignPhase {
    /// The place of the phase in the order, from zero.
    pub open spec fn rank(self) -> nat {
        match self {
            SignPhase::CommitNonce => 0,
            SignPhase::ExchangeMtA => 1,
            SignPhase::RevealDelta => 2,
            SignPhase::RevealNonce => 3,
            SignPhase::CommitShares => 4,
            SignPhase::RevealShares => 5,
            SignPhase::ReleaseShare => 6,
            SignPhase::Sign => 7,
        }
    }

    /// The place of the phase in the order, from zero.
    pub fn index(self) -> (r: u8)
        ensures
            r == self.rank(),
    {
        match self {
            SignPhase::CommitNonce => 0,
            SignPhase::ExchangeMtA => 1,
            SignPhase::RevealDelta => 2,
            SignPhase::RevealNonce => 3,
            SignPhase::CommitShares => 4,
            SignPhase::RevealShares => 5,
            SignPhase::ReleaseShare => 6,
            SignPhase::Sign => 7,
        }
    }
}

impl SignState {
    /// How many phases a session in this state has behind it; none counts
    /// for an aborted one.
    pub open spec fn progress(self) -> nat {
        match self {
            SignState::Init => 0,
            SignState::NonceCommitted => 1,
            SignState::MtAExchanged => 2,
            SignState::DeltaRevealed => 3,
            SignState::NonceRevealed => 4,
            SignState::SharesCommitted => 5,
            SignState::SharesRevealed => 6,
            SignState::ShareReleased => 7,
            SignState::Signed => 8,
            SignState::Aborted => 0,
        }
    }

    /// Whether the session is over.
    pub open spec fn terminal(self) -> bool {
        self == SignState::Signed || self == SignState::Aborted
    }

    /// Whether the phase is the one that a session in this state waits for.
    pub open spec fn awaits(self, phase: SignPhase) -> bool {
        !self.terminal() && phase.rank() == self.progress()
    }

    /// The state after the phase that this state waits for.
    pub open spec fn successor(self) -> SignState {
        match self {
            SignState::Init => SignState::NonceCommitted,
            SignState::NonceCommitted => SignState::MtAExchanged,
            SignState::MtAExchanged => SignState::DeltaRevealed,
            SignState::DeltaRevealed => SignState::NonceRevealed,
            SignState::NonceRevealed => SignState::SharesCommitted,
            SignState::SharesCommitted => SignState::SharesRevealed,
            SignState::SharesRevealed => SignState::ShareReleased,
            SignState::ShareReleased => SignState::Signed,
            SignState::Signed => SignState::Signed,
            SignState::Aborted => SignState::Aborted,
        }
    }

    /// Why a session in this state refuses the phase, if it does: a phase
    /// that it has behind it would use its secrets twice; any other phase
    /// than the awaited one is out of place.
    pub open spec fn refusal(self, phase: SignPhase) -> Option<ProtocolError> {
        if self.awaits(phase) {
            None
        } else if self != SignState::Aborted && phase.rank() < self.progress() {
            Some(ProtocolError::NonceReuseViolation)
        } else {
            Some(ProtocolError::MalformedInput)
        }
    }

    /// The state that follows when the phase ended with `outcome`: the next
    /// one where the phase was awaited and went well, else `Aborted`.
    pub open spec fn after(self, phase: SignPhase, outcome: Option<ProtocolError>) -> SignState {
        if self.awaits(phase) && outcome.is_none() {
            self.successor()
        } else {
            SignState::Aborted
        }
    }

    /// The state after a run of phases with their outcomes.
    pub open spec fn after_all(self, run: Seq<(SignPhase, Option<ProtocolError>)>) -> SignState
        decreases run.len(),
    {
        if run.len() == 0 {
            self
        } else {
            self.after_all(run.drop_last()).after(run.last().0, run.last().1)
        }
    }

    fn steps_done(self) -> (r: u8)
        ensures
            r == self.progress(),
    {
        match self {
            SignState::Init => 0,
            SignState::NonceCommitted => 1,
            SignState::MtAExchanged => 2,
            SignState::DeltaRevealed => 3,
            SignState::NonceRevealed => 4,
            SignState::SharesCommitted => 5,
            SignState::SharesRevealed => 6,
            SignState::ShareReleased => 7,
            SignState::Signed => 8,
            SignState::Aborted => 0,
        }
    }

    /// Whether a phase may be run now, and if not, why not.
    pub fn permits(self, phase: SignPhase) -> (r: Result<(), ProtocolError>)
        ensures
            r.is_ok() == self.awaits(phase),
            r.is_err() ==> Some(r->Err_0) == self.refusal(phase),
    {
        let over = self == SignState::Signed || self == SignState::Aborted;
        if !over && phase.index() == self.steps_done() {
            Ok(())
        } else if self != SignState::Aborted && phase.index() < self.steps_done() {
            Err(ProtocolError::NonceReuseViolation)
        } else {
            Err(ProtocolError::MalformedInput)
        }
    }

    /// The state after a phase that ended with `outcome`.
    pub fn step(self, phase: SignPhase, outcome: Option<ProtocolError>) -> (r: SignState)
        ensures
            r == self.after(phase, outcome),
    {
        match (self.permits(phase), outcome) {
            (Ok(()), None) => match self {
                SignState::Init => SignState::NonceCommitted,
                SignState::NonceCommitted => SignState::MtAExchanged,
                SignState::MtAExchanged => SignState::DeltaRevealed,
                SignState::DeltaRevealed => SignState::NonceRevealed,
                SignState::NonceRevealed => SignState::SharesCommitted,
                SignState::SharesCommitted => SignState::SharesRevealed,
                SignState::SharesRevealed => SignState::ShareReleased,
                _ => SignState::Signed,
            },
            _ => SignState::Aborted,
        }
    }
}

/// What a phase ended with: nothing where it went well, else its failure.
pub open spec fn failure_of<T>(r: Result<T, ProtocolError>) -> Option<ProtocolError> {
    match r {
        Ok(_) => None,
        Err(e) => Some(e),
    }
}

/// Whether `r` and `now` are what a session in the state `before` comes to
/// when it is asked for a phase whose own outcome is `r`: a phase that is not
/// awaited is refused and the session stands aborted; an awaited phase moves
/// the session on where it went well and aborts it where it failed.
pub open spec fn in_order<T>(before: SignState, phase: SignPhase, r: Result<T, ProtocolError>, now: SignState) -> bool {
    &&& now == before.after(phase, failure_of(r))
    &&& !before.awaits(phase) ==> r.is_err() && Some(r->Err_0) == before.refusal(phase)
}

/// A signing session's place in the order of its phases.
pub struct SignSession {
    state: SignState,
}

impl SignSession {
    /// Where the session stands.
    pub closed spec fn state(&self) -> SignState {
        self.state
    }

    /// A session that has not begun.
    pub fn new() -> (r: SignSession)
        ensures
            r.state() == SignState::Init,
    {
        SignSession { state: SignState::Init }
    }

    /// Where the session stands.
    pub fn current(&self) -> (r: SignState)
        ensures
            r == self.state(),
    {
        self.state
    }

    /// Records that a phase ended with `outcome`. Gives the refusal where the
    /// phase was not awaited, else the phase's own failure if it had one; the
    /// session then stands aborted. Otherwise the session moves on by one.
    pub fn record(&mut self, phase: SignPhase, outcome: Option<ProtocolError>) -> (r: Result<(), ProtocolError>)
        ensures
            final(self).state() == old(self).state().after(phase, outcome),
            r.is_ok() == (old(self).state().awaits(phase) && outcome.is_none()),
            r.is_err() ==> Some(r->Err_0) == (if old(self).state().awaits(phase) {
                outcome
            } else {
                old(self).state().refusal(phase)
            }),
    {
        let allowed = self.state.permits(phase);
        self.state = self.state.step(phase, outcome);
        match (allowed, outcome) {
            (Err(e), _) => Err(e),
            (Ok(()), Some(e)) => Err(e),
            (Ok(()), None) => Ok(()),
        }
    }
}

/// A session only moves forward, and by one phase at a time: whatever the
/// phase and its outcome, the state that follows is either `Aborted` or the
/// state with exactly one more phase behind it, reached by the awaited phase.
pub proof fn lemma_phases_are_linear(state: SignState, phase: SignPhase, outcome: Option<ProtocolError>)
    ensures
        state.after(phase, outcome) == SignState::Aborted || (state.after(phase, outcome).progress()
            == state.progress() + 1 && phase.rank() == state.progress() && outcome.is_none()),
{
}

/// Once over, always over: no phase moves an aborted session, and none moves
/// a signed one anywhere but to `Aborted`.
pub proof fn lemma_aborted_is_final(run: Seq<(SignPhase, Option<ProtocolError>)>)
    ensures
        SignState::Aborted.after_all(run) == SignState::Aborted,
    decreases run.len(),
{
    if run.len() > 0 {
        lemma_aborted_is_final(run.drop_last());
    }
}

/// A session that stands signed has run the eight phases, each once, in
/// their order, and every one went well.
pub proof fn lemma_signed_means_all_phases(run: Seq<(SignPhase, Option<ProtocolError>)>)
    requires
        SignState::Init.after_all(run) == SignState::Signed,
    ensures
        run.len() == 8,
        forall|i: int| 0 <= i < 8 ==> (#[trigger] run[i]).0.rank() == i && run[i].1.is_none(),
{
    lemma_progress_counts(run);
    assert forall|i: int| 0 <= i < 8 implies (#[trigger] run[i]).0.rank() == i && run[i].1.is_none() by {
        lemma_prefix_progress(run, i + 1);
        lemma_prefix_progress(run, i);
        let before = SignState::Init.after_all(run.subrange(0, i));
        let upto = run.subrange(0, i + 1);
        assert(upto.drop_last() =~= run.subrange(0, i));
        assert(upto.last() == run[i]);
    }
}

/// A run that does not end aborted has as many phases as the session has
/// behind it.
proof fn lemma_progress_counts(run: Seq<(SignPhase, Option<ProtocolError>)>)
    ensures
        SignState::Init.after_all(run) != SignState::Aborted ==> SignState::Init.after_all(run).progress()
            == run.len(),
    decreases run.len(),
{
    if run.len() > 0 {
        lemma_progress_counts(run.drop_last());
    }
}

/// Where a run does not end aborted, none of its beginnings does, and each
/// has as many phases behind it as it is long.
proof fn lemma_prefix_progress(run: Seq<(SignPhase, Option<ProtocolError>)>, n: int)
    requires
        0 <= n <= run.len(),
        SignState::Init.after_all(run) != SignState::Aborted,
    ensures
        SignState::Init.after_all(run.subrange(0, n)) != SignState::Aborted,
        SignState::Init.after_all(run.subrange(0, n)).progress() == n,
    decreases run.len() - n,
{
    if n == run.len() {
        assert(run.subrange(0, n) =~= run);
        lemma_progress_counts(run);
    } else {
        lemma_prefix_progress(run, n + 1);
        let longer = run.subrange(0, n + 1);
        assert(longer.drop_last() =~= run.subrange(0, n));
        lemma_progress_counts(run.subrange(0, n));
    }
}

} // verus!
