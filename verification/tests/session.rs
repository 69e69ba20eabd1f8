use two_party_gg18::error::ProtocolError;
use two_party_gg18::session::{SignPhase, SignSession, SignState};

const PHASES: [SignPhase; 8] = [
    SignPhase::CommitNonce,
    SignPhase::ExchangeMtA,
    SignPhase::RevealDelta,
    SignPhase::RevealNonce,
    SignPhase::CommitShares,
    SignPhase::RevealShares,
    SignPhase::ReleaseShare,
    SignPhase::Sign,
];

const STATES: [SignState; 9] = [
    SignState::Init,
    SignState::NonceCommitted,
    SignState::MtAExchanged,
    SignState::DeltaRevealed,
    SignState::NonceRevealed,
    SignState::SharesCommitted,
    SignState::SharesRevealed,
    SignState::ShareReleased,
    SignState::Signed,
];

#[test]
fn session_goes_through_its_phases_in_order() {
    let mut session = SignSession::new();
    assert_eq!(session.current(), SignState::Init);
    for i in 0..8 {
        assert_eq!(session.current(), STATES[i]);
        assert_eq!(PHASES[i].index() as usize, i);
        assert_eq!(session.record(PHASES[i], None), Ok(()));
        assert_eq!(session.current(), STATES[i + 1]);
    }
    assert_eq!(session.current(), SignState::Signed);
    assert_eq!(session.record(SignPhase::Sign, None), Err(ProtocolError::NonceReuseViolation));
    assert_eq!(session.current(), SignState::Aborted);
}

#[test]
fn session_refuses_a_phase_that_it_has_behind_it() {
    let mut session = SignSession::new();
    assert_eq!(session.record(SignPhase::CommitNonce, None), Ok(()));
    assert_eq!(session.record(SignPhase::ExchangeMtA, None), Ok(()));
    assert_eq!(session.current().permits(SignPhase::CommitNonce), Err(ProtocolError::NonceReuseViolation));
    assert_eq!(session.current().permits(SignPhase::ExchangeMtA), Err(ProtocolError::NonceReuseViolation));
    assert_eq!(session.current().permits(SignPhase::RevealDelta), Ok(()));
    assert_eq!(session.record(SignPhase::CommitNonce, None), Err(ProtocolError::NonceReuseViolation));
    assert_eq!(session.current(), SignState::Aborted);
}

#[test]
fn session_refuses_a_phase_that_skips_ahead() {
    let mut session = SignSession::new();
    assert_eq!(session.current().permits(SignPhase::RevealDelta), Err(ProtocolError::MalformedInput));
    assert_eq!(session.record(SignPhase::ExchangeMtA, None), Err(ProtocolError::MalformedInput));
    assert_eq!(session.current(), SignState::Aborted);
}

#[test]
fn failed_phase_aborts_for_good() {
    let mut session = SignSession::new();
    assert_eq!(session.record(SignPhase::CommitNonce, None), Ok(()));
    assert_eq!(
        session.record(SignPhase::ExchangeMtA, Some(ProtocolError::InvalidMtAProof)),
        Err(ProtocolError::InvalidMtAProof)
    );
    assert_eq!(session.current(), SignState::Aborted);
    for phase in PHASES {
        assert_eq!(session.current().permits(phase), Err(ProtocolError::MalformedInput));
        assert_eq!(session.current().step(phase, None), SignState::Aborted);
        assert_eq!(session.record(phase, None), Err(ProtocolError::MalformedInput));
        assert_eq!(session.current(), SignState::Aborted);
    }
}

#[test]
fn step_moves_by_one_or_aborts() {
    for (i, state) in STATES.iter().enumerate() {
        for (j, phase) in PHASES.iter().enumerate() {
            let next = state.step(*phase, None);
            if i == j {
                assert_eq!(next, STATES[i + 1]);
            } else {
                assert_eq!(next, SignState::Aborted);
            }
            assert_eq!(state.step(*phase, Some(ProtocolError::InvalidCommitment)), SignState::Aborted);
        }
    }
}
