use unhalt_scenario::error::ScenarioError;
use unhalt_scenario::governance::Coin;
use unhalt_scenario::nonces::{assemble_snapshot, matches_groups};
use unhalt_scenario::scenario::{Scenario, ScenarioState};

fn deposit() -> Coin {
    Coin { denom: "stake".to_string(), amount: 1_000_000_000 }
}

#[test]
fn baseline_accepts_agreeing_validators() {
    for n in 3..8usize {
        let s = Scenario::start(vec![7u64; n]).unwrap();
        assert_eq!(s.state, ScenarioState::Baseline);
        assert_eq!(s.baseline_nonce, 7);
        assert_eq!(s.validator_count, n);
    }
}

#[test]
fn baseline_rejects_disagreeing_validators() {
    assert!(matches!(Scenario::start(vec![5, 5, 6]), Err(ScenarioError::InvariantViolation)));
    assert!(matches!(Scenario::start(vec![]), Err(ScenarioError::InvariantViolation)));
}

#[test]
fn baseline_rejects_nonce_that_cannot_advance() {
    assert!(matches!(
        Scenario::start(vec![u64::MAX, u64::MAX, u64::MAX]),
        Err(ScenarioError::NonceOverflow)
    ));
}

#[test]
fn halt_shows_two_groups() {
    let mut s = Scenario::start(vec![5, 5, 5]).unwrap();
    s.record_faults(&vec![1, 2]).unwrap();
    assert_eq!(s.state, ScenarioState::FaultsInjected);
    assert_eq!(s.faulty, vec![false, true, true]);
    assert_eq!(s.fault_nonce(), 6);
    s.confirm_halt(vec![5, 6, 6]).unwrap();
    assert_eq!(s.state, ScenarioState::HaltConfirmed);
    assert!(matches_groups(&s.halt_snapshot, &vec![0, 1, 1]));
    assert!(!matches_groups(&s.halt_snapshot, &vec![0, 0, 1]));
}

#[test]
fn halt_not_yet_observed_keeps_state() {
    let mut s = Scenario::start(vec![5, 5, 5]).unwrap();
    s.record_faults(&vec![1, 2]).unwrap();
    assert!(matches!(s.confirm_halt(vec![5, 6, 5]), Err(ScenarioError::InvariantViolation)));
    assert_eq!(s.state, ScenarioState::FaultsInjected);
    assert_eq!(s.last_snapshot, vec![5, 6, 5]);
    assert!(matches!(s.confirm_halt(vec![5, 7, 7]), Err(ScenarioError::InvariantViolation)));
    assert!(matches!(s.confirm_halt(vec![5, 6]), Err(ScenarioError::InvariantViolation)));
}

#[test]
fn faults_refuse_invalid_minority() {
    let mut s = Scenario::start(vec![5, 5, 5]).unwrap();
    assert!(matches!(s.record_faults(&vec![0, 1]), Err(ScenarioError::InvalidMinority)));
    assert!(matches!(s.record_faults(&vec![]), Err(ScenarioError::InvalidMinority)));
    assert!(matches!(s.record_faults(&vec![1, 1]), Err(ScenarioError::InvalidMinority)));
    assert!(matches!(s.record_faults(&vec![3]), Err(ScenarioError::InvalidMinority)));
    assert_eq!(s.state, ScenarioState::Baseline);
}

#[test]
fn end_to_end_halt_and_recovery() {
    let mut s = Scenario::start(vec![5, 5, 5]).unwrap();
    s.record_faults(&vec![1, 2]).unwrap();
    s.confirm_halt(vec![5, 6, 6]).unwrap();
    let proposal = s.submit_recovery(deposit());
    assert_eq!(s.state, ScenarioState::RecoverySubmitted);
    assert_eq!(proposal.target_reset_nonce, 5);
    assert!(proposal.reset_state);
    assert_eq!(proposal.deposit.amount, 1_000_000_000);
    assert!(matches!(s.confirm_recovery(vec![5, 6, 6]), Err(ScenarioError::InvariantViolation)));
    assert!(matches!(s.confirm_recovery(vec![6, 6, 6]), Err(ScenarioError::InvariantViolation)));
    s.confirm_recovery(vec![5, 5, 5]).unwrap();
    assert_eq!(s.state, ScenarioState::RecoveryConfirmed);
    assert_eq!(s.recovery_snapshot, vec![5, 5, 5]);
    assert!(matches!(s.confirm_liveness(vec![5, 5, 5]), Err(ScenarioError::InvariantViolation)));
    s.confirm_liveness(vec![6, 6, 6]).unwrap();
    assert_eq!(s.state, ScenarioState::Completed);
}

#[test]
fn snapshot_twice_is_identical() {
    let answers = || vec![Ok(5u64), Ok(6), Ok(6)];
    let a = assemble_snapshot(answers()).unwrap();
    let b = assemble_snapshot(answers()).unwrap();
    assert_eq!(a, b);
    assert_eq!(a, vec![5, 6, 6]);
}

#[test]
fn snapshot_fails_on_any_failed_query() {
    let r = assemble_snapshot(vec![Ok(5), Err(ScenarioError::Transport), Err(ScenarioError::ChainRejection)]);
    assert!(matches!(r, Err(ScenarioError::Transport)));
    assert_eq!(assemble_snapshot(vec![]).unwrap(), Vec::<u64>::new());
}
