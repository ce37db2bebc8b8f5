use unhalt_scenario::error::ScenarioError;
use unhalt_scenario::faults::{check_minority, conflicting_template, false_claims, fault_mask, join_outcomes};
use unhalt_scenario::governance::{collect_votes, json_quoted_u64, recovery_proposal, reset_proposal, Coin};
use unhalt_scenario::nonces::{is_halted_snapshot, nonces_agree, nonces_all_at};
use unhalt_scenario::poller::{next_action, PollAction, PollConfig, PollOutcome, SampleEvent};
use unhalt_scenario::validators::{derive_address, KeyKind, ValidatorIdentity, ValidatorSet};

fn identity(seed: u8) -> ValidatorIdentity {
    ValidatorIdentity {
        consensus_secret: [seed; 32],
        oracle_secret: [seed.wrapping_add(100); 32],
        chain_secret: [seed.wrapping_add(50); 32],
    }
}

#[test]
fn poll_succeeds_on_first_hold_without_sleep() {
    let c = PollConfig { interval_ms: 10_000, deadline_ms: 600_000 };
    assert_eq!(next_action(c, 0, SampleEvent::Held), PollAction::Finish(PollOutcome::Converged));
    assert_eq!(next_action(c, 600_000, SampleEvent::Held), PollAction::Finish(PollOutcome::Converged));
}

#[test]
fn poll_times_out_after_deadline() {
    let c = PollConfig { interval_ms: 10_000, deadline_ms: 600_000 };
    assert_eq!(next_action(c, 0, SampleEvent::NotHeld), PollAction::SleepThenSample(10_000));
    assert_eq!(next_action(c, 600_000, SampleEvent::NotHeld), PollAction::SleepThenSample(10_000));
    assert_eq!(next_action(c, 600_001, SampleEvent::NotHeld), PollAction::Finish(PollOutcome::Timeout));
    let mut t = 0u64;
    let outcome = loop {
        match next_action(c, t, SampleEvent::NotHeld) {
            PollAction::Finish(o) => break o,
            PollAction::SleepThenSample(d) => t += d,
        }
    };
    assert_eq!(outcome, PollOutcome::Timeout);
    assert_eq!(t, 610_000);
}

#[test]
fn poll_reports_failure_and_cancellation() {
    let c = PollConfig { interval_ms: 5, deadline_ms: 50 };
    assert_eq!(next_action(c, 1, SampleEvent::SampleFailed), PollAction::Finish(PollOutcome::Failed));
    assert_eq!(next_action(c, 1, SampleEvent::Cancelled), PollAction::Finish(PollOutcome::Cancelled));
}

#[test]
fn votes_reach_quorum_with_one_failure() {
    let t = collect_votes(&vec![0, 1, 2], &vec![true, false, true]).unwrap();
    assert_eq!(t.finalized, 2);
    assert_eq!(t.failed, vec![1]);
    let t = collect_votes(&vec![0, 1, 2], &vec![true, true, true]).unwrap();
    assert_eq!(t.finalized, 3);
    assert!(t.failed.is_empty());
}

#[test]
fn votes_fail_without_quorum() {
    match collect_votes(&vec![0, 1, 2], &vec![false, true, false]) {
        Err(ScenarioError::PartialFailure(f)) => assert_eq!(f, vec![0, 2]),
        other => panic!("unexpected {:?}", other),
    }
    assert!(collect_votes(&vec![0, 1], &vec![true, false]).is_err());
}

#[test]
fn reset_proposal_parameters() {
    let p = recovery_proposal(5, Coin { denom: "stake".to_string(), amount: 10 });
    let g = reset_proposal(&p);
    assert_eq!(g.title, "Reset Bridge State");
    assert_eq!(g.changes.len(), 2);
    assert_eq!(g.changes[0].subspace, "gravity");
    assert_eq!(g.changes[0].key, "ResetBridgeState");
    assert_eq!(g.changes[0].value, "true");
    assert_eq!(g.changes[1].subspace, "gravity");
    assert_eq!(g.changes[1].key, "ResetBridgeNonce");
    assert_eq!(g.changes[1].value, "\"5\"");
}

#[test]
fn quoted_decimal_values() {
    assert_eq!(json_quoted_u64(0), "\"0\"");
    assert_eq!(json_quoted_u64(1234567890), "\"1234567890\"");
    assert_eq!(json_quoted_u64(u64::MAX), format!("\"{}\"", u64::MAX));
}

#[test]
fn false_claims_one_per_member() {
    let s = |x: &str| x.to_string();
    let t = conflicting_template(5, 100, &s("0xToken"), &s("1000"), &s("0xSender"), &s("gravity1recv")).unwrap();
    assert_eq!(t.event_nonce, 6);
    assert_eq!(t.block_height, 101);
    let orchs = vec![s("o0"), s("o1"), s("o2"), s("o3")];
    let claims = false_claims(&t, &orchs, &vec![2, 1]).unwrap();
    assert_eq!(claims.len(), 2);
    assert_eq!(claims[0].orchestrator, "o2");
    assert_eq!(claims[1].orchestrator, "o1");
    for c in &claims {
        assert_eq!(c.event_nonce, 6);
        assert_eq!(c.block_height, 101);
        assert_eq!(c.token_contract, "0xToken");
        assert_eq!(c.amount, "1000");
        assert_eq!(c.ethereum_sender, "0xSender");
        assert_eq!(c.cosmos_receiver, "gravity1recv");
    }
    assert!(matches!(false_claims(&t, &orchs, &vec![0, 1]), Err(ScenarioError::InvalidMinority)));
}

#[test]
fn conflicting_template_overflow() {
    let e = String::new();
    assert!(matches!(conflicting_template(u64::MAX, 1, &e, &e, &e, &e), Err(ScenarioError::NonceOverflow)));
    assert!(matches!(conflicting_template(1, u64::MAX, &e, &e, &e, &e), Err(ScenarioError::NonceOverflow)));
}

#[test]
fn minority_rules() {
    assert!(check_minority(3, &vec![1, 2]));
    assert!(!check_minority(3, &vec![0, 2]));
    assert!(!check_minority(3, &vec![]));
    assert!(!check_minority(3, &vec![2, 2]));
    assert_eq!(fault_mask(4, &vec![3, 1]), vec![false, true, false, true]);
}

#[test]
fn fan_out_join() {
    assert!(join_outcomes(&vec![1, 2], &vec![true, true]).is_ok());
    match join_outcomes(&vec![1, 2], &vec![true, false]) {
        Err(ScenarioError::PartialFailure(f)) => assert_eq!(f, vec![2]),
        other => panic!("unexpected {:?}", other),
    }
}

#[test]
fn nonce_predicates() {
    assert!(nonces_agree(&vec![4, 4, 4]));
    assert!(!nonces_agree(&vec![4, 5, 4]));
    assert!(nonces_all_at(&vec![4, 4], 4));
    assert!(!nonces_all_at(&vec![4, 4], 5));
    assert!(is_halted_snapshot(&vec![5, 6, 6], 5, &vec![false, true, true]));
    assert!(!is_halted_snapshot(&vec![5, 5, 6], 5, &vec![false, true, true]));
}

#[test]
fn addresses_are_derived_per_key() {
    let id = identity(1);
    let c = derive_address(&id, KeyKind::Consensus, "gravity").unwrap();
    let o = derive_address(&id, KeyKind::Oracle, "gravity").unwrap();
    let e = derive_address(&id, KeyKind::Chain, "gravity").unwrap();
    assert!(c.starts_with("gravity1"));
    assert!(o.starts_with("gravity1"));
    assert_ne!(c, o);
    assert!(e.starts_with("0x"));
    assert_eq!(e.len(), 42);
    assert_eq!(derive_address(&id, KeyKind::Oracle, "gravity").unwrap(), o);
    let set = ValidatorSet::new(vec![identity(1), identity(2), identity(3)]);
    assert_eq!(set.len(), 3);
    let orchs = set.addresses(KeyKind::Oracle, "gravity").unwrap();
    assert_eq!(orchs.len(), 3);
    assert_eq!(orchs[0], o);
    assert_ne!(orchs[1], orchs[2]);
}

#[test]
fn invalid_chain_key_is_refused() {
    let mut id = identity(1);
    id.chain_secret = [0u8; 32];
    assert!(matches!(derive_address(&id, KeyKind::Chain, "gravity"), Err(ScenarioError::InvalidKey)));
}
