use vstd::prelude::*;
use crate::error::ScenarioError;
use crate::faults::{check_minority, fault_mask, fault_mask_spec, valid_minority};
use crate::governance::{recovery_proposal, Coin, RecoveryProposal};
use crate::nonces::{
    all_at,
    all_equal,
    halted_snapshot,
    is_halted_snapshot,
    nonces_agree,
    nonces_all_at,
    partitions_as,
};

verus! {

/// The stages of the halt and recovery scenario, in the only order they can be
/// reached.
#[derive(Debug, Clone, Copy, PartialEq, Eq, Structural)]
pub enum ScenarioState {
    Baseline,
    FaultsInjected,
    HaltConfirmed,
    RecoverySubmitted,
    RecoveryConfirmed,
    Completed,
}

/// The position of a stage in the scenario.
pub open spec fn rank(s: ScenarioState) -> nat {
    match s {
        ScenarioState::Baseline => 0,
        ScenarioState::FaultsInjected => 1,
        ScenarioState::HaltConfirmed => 2,
        ScenarioState::RecoverySubmitted => 3,
        ScenarioState::RecoveryConfirmed => 4,
        ScenarioState::Completed => 5,
    }
}

/// A run of the scenario and what it has observed so far.
#[derive(Debug, Clone)]
pub struct Scenario {
    pub state: ScenarioState,
    /// How many validators take part.
    pub validator_count: usize,
    /// The nonce on which every validator agreed before the faults.
    pub baseline_nonce: u64,
    /// The snapshot that established the baseline.
    pub baseline_snapshot: Vec<u64>,
    /// Which validators submitted the conflicting claim.
    pub faulty: Vec<bool>,
    /// The snapshot that confirmed the halt.
    pub halt_snapshot: Vec<u64>,
    /// The snapshot that confirmed the recovery.
    pub recovery_snapshot: Vec<u64>,
    /// The last snapshot observed, whether or not it was the one expected.
    pub last_snapshot: Vec<u64>,
}

impl Scenario {
    /// What holds at each stage.
    pub open spec fn wf(&self) -> bool {
        &&& self.validator_count > 0
        &&& self.baseline_nonce < u64::MAX
        &&& self.baseline_snapshot@.len() == self.validator_count
        &&& all_at(self.baseline_snapshot@, self.baseline_nonce)
        &&& rank(self.state) >= 1 ==> {
            &&& self.faulty@.len() == self.validator_count
            &&& !self.faulty@[0]
            &&& exists|i: int| 0 <= i < self.faulty@.len() && self.faulty@[i]
        }
        &&& rank(self.state) >= 2 ==> self.halt_snapshot@ == halted_snapshot(
            self.baseline_nonce,
            self.faulty@,
        )
        &&& rank(self.state) >= 4 ==> {
            &&& self.recovery_snapshot@.len() == self.validator_count
            &&& all_at(self.recovery_snapshot@, self.baseline_nonce)
        }
    }

    /// Opens the scenario at the baseline from a first snapshot of every
    /// validator's nonce. Fails with `InvariantViolation` when the snapshot is
    /// empty or the validators disagree, and with `NonceOverflow` when the agreed
    /// nonce cannot be advanced.
    pub fn start(snapshot: Vec<u64>) -> (r: Result<Scenario, ScenarioError>)
        ensures
            match r {
                Ok(s) => {
                    &&& s.wf()
                    &&& s.state == ScenarioState::Baseline
                    &&& s.validator_count == snapshot@.len()
                    &&& s.baseline_nonce == snapshot@[0]
                    &&& s.baseline_snapshot@ == snapshot@
                    &&& s.last_snapshot@ == snapshot@
                },
                Err(e) => {
                    ||| (snapshot@.len() == 0 || !all_equal(snapshot@)) && e is InvariantViolation
                    ||| snapshot@.len() > 0 && all_equal(snapshot@) && snapshot@[0] == u64::MAX
                        && e is NonceOverflow
                },
            },
    {
        if snapshot.len() == 0 || !nonces_agree(&snapshot) {
            return Err(ScenarioError::InvariantViolation);
        }
        let baseline = snapshot[0];
        if baseline == u64::MAX {
            return Err(ScenarioError::NonceOverflow);
        }
        let n = snapshot.len();
        let copy = snapshot.clone();
        let last = snapshot.clone();
        Ok(
            Scenario {
                state: ScenarioState::Baseline,
                validator_count: n,
                baseline_nonce: baseline,
                baseline_snapshot: copy,
                faulty: Vec::new(),
                halt_snapshot: Vec::new(),
                recovery_snapshot: Vec::new(),
                last_snapshot: last,
            },
        )
    }

    /// The event nonce that the conflicting claims carry: one past the baseline.
    pub fn fault_nonce(&self) -> (r: u64)
        requires
            self.wf(),
        ensures
            r == self.baseline_nonce + 1,
    {
        self.baseline_nonce + 1
    }

    /// Records that the validators of `minority` submitted a conflicting claim.
    /// Fails with `InvalidMinority`, leaving the scenario as it was, exactly when
    /// `minority` is no valid faulty set for this scenario's validators.
    pub fn record_faults(&mut self, minority: &Vec<usize>) -> (r: Result<(), ScenarioError>)
        requires
            old(self).wf(),
            old(self).state == ScenarioState::Baseline,
        ensures
            final(self).wf(),
            match r {
                Ok(()) => {
                    &&& valid_minority(old(self).validator_count as nat, minority@)
                    &&& final(self).state == ScenarioState::FaultsInjected
                    &&& final(self).faulty@ == fault_mask_spec(
                        old(self).validator_count as nat,
                        minority@,
                    )
                    &&& final(self).baseline_nonce == old(self).baseline_nonce
                    &&& final(self).validator_count == old(self).validator_count
                },
                Err(e) => !valid_minority(old(self).validator_count as nat, minority@)
                    && e is InvalidMinority && *final(self) == *old(self),
            },
    {
        if !check_minority(self.validator_count, minority) {
            return Err(ScenarioError::InvalidMinority);
        }
        let mask = fault_mask(self.validator_count, minority);
        proof {
            let k = 0int;
            assert(minority@[k] < self.validator_count);
            assert(mask@[minority@[k] as int]);
            assert(!mask@[0]) by {
                if mask@[0] {
                    let x = choose|x: int| 0 <= x < minority@.len() && minority@[x] == 0;
                    assert(0 < minority@[x]);
                }
            }
        }
        self.faulty = mask;
        self.state = ScenarioState::FaultsInjected;
        Ok(())
    }

    /// Checks a snapshot taken after the faults against the halted one: the honest
    /// validators still at the baseline nonce, the faulty ones exactly one ahead.
    /// On a match the scenario moves on to `HaltConfirmed`; otherwise it fails with
    /// `InvariantViolation` and stays where it was. Either way the snapshot is kept
    /// as the last one observed.
    pub fn confirm_halt(&mut self, snapshot: Vec<u64>) -> (r: Result<(), ScenarioError>)
        requires
            old(self).wf(),
            old(self).state == ScenarioState::FaultsInjected,
        ensures
            final(self).wf(),
            final(self).last_snapshot@ == snapshot@,
            final(self).baseline_nonce == old(self).baseline_nonce,
            final(self).faulty@ == old(self).faulty@,
            final(self).validator_count == old(self).validator_count,
            match r {
                Ok(()) => snapshot@ == halted_snapshot(old(self).baseline_nonce, old(self).faulty@)
                    && final(self).state == ScenarioState::HaltConfirmed && final(self).halt_snapshot@ == snapshot@,
                Err(e) => snapshot@ != halted_snapshot(old(self).baseline_nonce, old(self).faulty@)
                    && e is InvariantViolation && final(self).state == old(self).state,
            },
    {
        let halted = is_halted_snapshot(&snapshot, self.baseline_nonce, &self.faulty);
        self.last_snapshot = snapshot.clone();
        if !halted {
            return Err(ScenarioError::InvariantViolation);
        }
        self.halt_snapshot = snapshot;
        self.state = ScenarioState::HaltConfirmed;
        Ok(())
    }

    /// Moves on to `RecoverySubmitted` and returns the recovery to submit: reset
    /// the bridge to the baseline nonce, with `deposit` as the deposit.
    pub fn submit_recovery(&mut self, deposit: Coin) -> (r: RecoveryProposal)
        requires
            old(self).wf(),
            old(self).state == ScenarioState::HaltConfirmed,
        ensures
            final(self).wf(),
            final(self).state == ScenarioState::RecoverySubmitted,
            final(self).baseline_nonce == old(self).baseline_nonce,
            final(self).validator_count == old(self).validator_count,
            r.target_reset_nonce == old(self).baseline_nonce,
            r.reset_state,
            r.deposit.denom@ == deposit.denom@,
            r.deposit.amount == deposit.amount,
    {
        self.state = ScenarioState::RecoverySubmitted;
        recovery_proposal(self.baseline_nonce, deposit)
    }

    /// Checks a snapshot taken after the recovery: every validator back at the
    /// baseline nonce, not at the faulty one. On a match the scenario moves on to
    /// `RecoveryConfirmed`; otherwise it fails with `InvariantViolation` and stays
    /// where it was. Either way the snapshot is kept as the last one observed.
    pub fn confirm_recovery(&mut self, snapshot: Vec<u64>) -> (r: Result<(), ScenarioError>)
        requires
            old(self).wf(),
            old(self).state == ScenarioState::RecoverySubmitted,
        ensures
            final(self).wf(),
            final(self).last_snapshot@ == snapshot@,
            final(self).baseline_nonce == old(self).baseline_nonce,
            final(self).validator_count == old(self).validator_count,
            match r {
                Ok(()) => snapshot@.len() == old(self).validator_count && all_at(
                    snapshot@,
                    old(self).baseline_nonce,
                ) && final(self).state == ScenarioState::RecoveryConfirmed && final(self).recovery_snapshot@ == snapshot@,
                Err(e) => !(snapshot@.len() == old(self).validator_count && all_at(
                    snapshot@,
                    old(self).baseline_nonce,
                )) && e is InvariantViolation && final(self).state == old(self).state,
            },
    {
        let recovered = snapshot.len() == self.validator_count && nonces_all_at(
            &snapshot,
            self.baseline_nonce,
        );
        self.last_snapshot = snapshot.clone();
        if !recovered {
            return Err(ScenarioError::InvariantViolation);
        }
        self.recovery_snapshot = snapshot;
        proof {
            let w = choose|i: int| 0 <= i < self.faulty@.len() && self.faulty@[i];
            assert(self.faulty@[w]);
        }
        self.state = ScenarioState::RecoveryConfirmed;
        proof {
            assert(self.validator_count > 0);
            assert(self.baseline_nonce < u64::MAX);
            assert(self.baseline_snapshot@.len() == self.validator_count);
            assert(all_at(self.baseline_snapshot@, self.baseline_nonce));
            assert(self.faulty@.len() == self.validator_count);
            assert(!self.faulty@[0]);
            assert(self.halt_snapshot@ == halted_snapshot(self.baseline_nonce, self.faulty@));
            assert(self.recovery_snapshot@.len() == self.validator_count);
            assert(all_at(self.recovery_snapshot@, self.baseline_nonce));
        }
        Ok(())
    }

    /// Checks a snapshot taken after one legitimate deposit once the bridge is
    /// recovered: every validator has attested it, one past the baseline nonce.
    /// On a match the scenario is `Completed`; otherwise it fails with
    /// `InvariantViolation` and stays where it was. Either way the snapshot is
    /// kept as the last one observed.
    pub fn confirm_liveness(&mut self, snapshot: Vec<u64>) -> (r: Result<(), ScenarioError>)
        requires
            old(self).wf(),
            old(self).state == ScenarioState::RecoveryConfirmed,
        ensures
            final(self).wf(),
            final(self).last_snapshot@ == snapshot@,
            match r {
                Ok(()) => snapshot@.len() == old(self).validator_count && all_at(
                    snapshot@,
                    (old(self).baseline_nonce + 1) as u64,
                ) && final(self).state == ScenarioState::Completed,
                Err(e) => !(snapshot@.len() == old(self).validator_count && all_at(
                    snapshot@,
                    (old(self).baseline_nonce + 1) as u64,
                )) && e is InvariantViolation && final(self).state == old(self).state,
            },
    {
        let live = snapshot.len() == self.validator_count && nonces_all_at(
            &snapshot,
            self.baseline_nonce + 1,
        );
        self.last_snapshot = snapshot;
        if !live {
            return Err(ScenarioError::InvariantViolation);
        }
        proof {
            let w = choose|i: int| 0 <= i < self.faulty@.len() && self.faulty@[i];
            assert(self.faulty@[w]);
        }
        self.state = ScenarioState::Completed;
        proof {
            assert(all_at(self.baseline_snapshot@, self.baseline_nonce));
            assert(self.halt_snapshot@ == halted_snapshot(self.baseline_nonce, self.faulty@));
            assert(all_at(self.recovery_snapshot@, self.baseline_nonce));
        }
        Ok(())
    }
}

/// At the baseline, and at every later stage, the baseline snapshot shows every
/// validator reporting the same nonce.
pub proof fn lemma_baseline_agreement(s: Scenario)
    requires
        s.wf(),
    ensures
        all_equal(s.baseline_snapshot@),
        s.baseline_snapshot@.len() == s.validator_count,
{
}

/// The group label of each validator in the halted snapshot: 1 for the faulty
/// ones, 0 for the honest ones.
pub open spec fn halt_labels(faulty: Seq<bool>) -> Seq<usize> {
    Seq::new(faulty.len(), |i: int| if faulty[i] { 1usize } else { 0usize })
}

/// Once a halt is confirmed, the nonces fall into exactly two groups: the
/// honest validators, among them validator 0, unchanged at the baseline nonce,
/// and the faulty ones, which agree among themselves, advanced by exactly one.
pub proof fn lemma_halt_two_groups(s: Scenario)
    requires
        s.wf(),
        rank(s.state) >= 2,
    ensures
        partitions_as(s.halt_snapshot@, halt_labels(s.faulty@)),
        s.halt_snapshot@[0] == s.baseline_nonce,
        exists|i: int| 0 <= i < s.faulty@.len() && s.faulty@[i],
        forall|i: int|
            0 <= i < s.validator_count ==> (#[trigger] s.halt_snapshot@[i] == if s.faulty@[i] {
                s.baseline_nonce + 1
            } else {
                s.baseline_nonce as int
            }),
{
}

/// Once a recovery is confirmed, every validator is back at the baseline nonce
/// from before the faults, and the faulty validators no longer stand apart.
pub proof fn lemma_recovery_reconverges(s: Scenario)
    requires
        s.wf(),
        rank(s.state) >= 4,
    ensures
        all_equal(s.recovery_snapshot@),
        forall|i: int|
            0 <= i < s.validator_count ==> #[trigger] s.recovery_snapshot@[i] == s.baseline_nonce,
        forall|i: int|
            0 <= i < s.validator_count && s.faulty@[i] ==> s.recovery_snapshot@[i]
                < #[trigger] s.halt_snapshot@[i],
{
}

} // verus!
