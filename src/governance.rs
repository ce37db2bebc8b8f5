use vstd::prelude::*;
use crate::error::ScenarioError;
use crate::faults::failed_members;

verus! {

/// How many of the operations were confirmed.
pub open spec fn count_confirmed(confirmed: Seq<bool>) -> nat
    decreases confirmed.len(),
{
    if confirmed.len() == 0 {
        0
    } else {
        count_confirmed(confirmed.drop_last()) + if confirmed.last() {
            1nat
        } else {
            0nat
        }
    }
}

/// More than half of the voters had their vote finalized.
pub open spec fn quorum_reached(confirmed: Seq<bool>) -> bool {
    2 * count_confirmed(confirmed) > confirmed.len()
}

proof fn lemma_count_bounded(confirmed: Seq<bool>)
    ensures
        count_confirmed(confirmed) <= confirmed.len(),
    decreases confirmed.len(),
{
    if confirmed.len() > 0 {
        lemma_count_bounded(confirmed.drop_last());
    }
}

/// With three voters or more, the vote still reaches quorum when at most one
/// of the votes fails to finalize.
pub proof fn lemma_quorum_despite_one_failure(confirmed: Seq<bool>)
    requires
        confirmed.len() >= 3,
        count_confirmed(confirmed) + 1 >= confirmed.len(),
    ensures
        quorum_reached(confirmed),
{
}

/// The outcome of a round of votes that reached quorum.
#[derive(Debug, Clone)]
pub struct VoteTally {
    /// How many votes were finalized.
    pub finalized: usize,
    /// The voters whose vote failed to finalize, in voting order.
    pub failed: Vec<usize>,
}

/// Judges a round of affirmative votes, one per voter of `voters` in the same
/// order, where `confirmed[k]` tells whether voter `k`'s vote was finalized.
/// Succeeds exactly when more than half of them were, reporting the voters that
/// failed either way.
pub fn collect_votes(voters: &Vec<usize>, confirmed: &Vec<bool>) -> (r: Result<
    VoteTally,
    ScenarioError,
>)
    requires
        voters@.len() == confirmed@.len(),
    ensures
        match r {
            Ok(t) => quorum_reached(confirmed@) && t.finalized == count_confirmed(confirmed@)
                && t.failed@ == failed_members(voters@, confirmed@),
            Err(ScenarioError::PartialFailure(failed)) => !quorum_reached(confirmed@)
                && failed@ == failed_members(voters@, confirmed@),
            Err(_) => false,
        },
{
    let mut failed: Vec<usize> = Vec::new();
    let mut finalized: usize = 0;
    let mut i: usize = 0;
    while i < confirmed.len()
        invariant
            voters@.len() == confirmed@.len(),
            i <= confirmed@.len(),
            finalized == count_confirmed(confirmed@.take(i as int)),
            finalized <= i,
            failed@ == failed_members(voters@.take(i as int), confirmed@.take(i as int)),
        decreases confirmed@.len() - i,
    {
        assert(voters@.take(i + 1).drop_last() =~= voters@.take(i as int));
        assert(confirmed@.take(i + 1).drop_last() =~= confirmed@.take(i as int));
        if confirmed[i] {
            finalized += 1;
        } else {
            failed.push(voters[i]);
        }
        i += 1;
    }
    assert(voters@.take(i as int) =~= voters@);
    assert(confirmed@.take(i as int) =~= confirmed@);
    if finalized > confirmed.len() - finalized {
        Ok(VoteTally { finalized, failed })
    } else {
        Err(ScenarioError::PartialFailure(failed))
    }
}

/// An amount of one denomination.
#[derive(Debug, Clone)]
pub struct Coin {
    pub denom: String,
    pub amount: u128,
}

/// The recovery to vote on: reset the bridge's state to the event nonce given.
#[derive(Debug, Clone)]
pub struct RecoveryProposal {
    pub target_reset_nonce: u64,
    pub reset_state: bool,
    pub deposit: Coin,
}

/// Builds the recovery that resets the bridge to the honest validators' nonce
/// from before the faults, with `deposit` as the proposer's deposit.
pub fn recovery_proposal(baseline_nonce: u64, deposit: Coin) -> (r: RecoveryProposal)
    ensures
        r.target_reset_nonce == baseline_nonce,
        r.reset_state,
        r.deposit.denom@ == deposit.denom@,
        r.deposit.amount == deposit.amount,
{
    RecoveryProposal { target_reset_nonce: baseline_nonce, reset_state: true, deposit }
}

/// One parameter that a governance proposal changes.
#[derive(Debug, Clone)]
pub struct ParamChange {
    pub subspace: String,
    pub key: String,
    pub value: String,
}

/// A governance proposal that changes parameters.
#[derive(Debug, Clone)]
pub struct ParameterChangeProposal {
    pub title: String,
    pub description: String,
    pub changes: Vec<ParamChange>,
}

/// The JSON text of a boolean.
pub open spec fn json_bool_text(b: bool) -> Seq<char> {
    if b {
        "true"@
    } else {
        "false"@
    }
}

/// Relies on serde_json::to_string: a bool is written as `true` or `false`, and
/// writing into a string never fails.
#[verifier::external_body]
fn json_bool(b: bool) -> (r: Option<String>)
    ensures
        r is Some,
        r.unwrap()@ == json_bool_text(b),
{
    serde_json::to_string(&b).ok()
}

/// Relies on `String`'s `FromIterator<char>`: the characters in order.
#[verifier::external_body]
fn string_from_chars(chars: &Vec<char>) -> (r: String)
    ensures
        r@ == chars@,
{
    chars.iter().collect()
}

/// The character of a decimal digit.
pub open spec fn digit_char(d: nat) -> char {
    if d == 0 {
        '0'
    } else if d == 1 {
        '1'
    } else if d == 2 {
        '2'
    } else if d == 3 {
        '3'
    } else if d == 4 {
        '4'
    } else if d == 5 {
        '5'
    } else if d == 6 {
        '6'
    } else if d == 7 {
        '7'
    } else if d == 8 {
        '8'
    } else {
        '9'
    }
}

/// The decimal digits of `n`, most significant first, without leading zeros.
pub open spec fn decimal(n: nat) -> Seq<char>
    decreases n,
{
    if n < 10 {
        seq![digit_char(n)]
    } else {
        decimal(n / 10).push(digit_char(n % 10))
    }
}

fn digit(d: u64) -> (r: char)
    requires
        d < 10,
    ensures
        r == digit_char(d as nat),
{
    if d == 0 {
        '0'
    } else if d == 1 {
        '1'
    } else if d == 2 {
        '2'
    } else if d == 3 {
        '3'
    } else if d == 4 {
        '4'
    } else if d == 5 {
        '5'
    } else if d == 6 {
        '6'
    } else if d == 7 {
        '7'
    } else if d == 8 {
        '8'
    } else {
        '9'
    }
}

fn push_decimal(n: u64, out: &mut Vec<char>)
    ensures
        final(out)@ == old(out)@ + decimal(n as nat),
    decreases n,
{
    if n >= 10 {
        push_decimal(n / 10, out);
    }
    out.push(digit(n % 10));
    assert(n >= 10 ==> decimal(n as nat) == decimal((n / 10) as nat).push(digit_char((n % 10) as nat)));
}

/// The JSON text of a nonce written as a quoted decimal string.
pub open spec fn quoted_decimal(n: nat) -> Seq<char> {
    seq!['"'] + decimal(n) + seq!['"']
}

/// Writes `n` as a JSON string of its decimal digits, as the chain expects a
/// 64-bit parameter.
pub fn json_quoted_u64(n: u64) -> (r: String)
    ensures
        r@ == quoted_decimal(n as nat),
{
    let mut chars: Vec<char> = Vec::new();
    chars.push('"');
    push_decimal(n, &mut chars);
    chars.push('"');
    assert(chars@ =~= quoted_decimal(n as nat));
    string_from_chars(&chars)
}

/// The parameter changes that carry out `proposal` in the bridge module's
/// subspace: first the state-reset flag, then the nonce to reset to.
pub open spec fn reset_changes_hold(changes: Seq<ParamChange>, proposal: RecoveryProposal) -> bool {
    &&& changes.len() == 2
    &&& changes[0].subspace@ == "gravity"@
    &&& changes[0].key@ == "ResetBridgeState"@
    &&& changes[0].value@ == json_bool_text(proposal.reset_state)
    &&& changes[1].subspace@ == "gravity"@
    &&& changes[1].key@ == "ResetBridgeNonce"@
    &&& changes[1].value@ == quoted_decimal(proposal.target_reset_nonce as nat)
}

/// The governance proposal that carries out a recovery.
pub fn reset_proposal(proposal: &RecoveryProposal) -> (r: ParameterChangeProposal)
    ensures
        reset_changes_hold(r.changes@, *proposal),
        r.title@ == "Reset Bridge State"@,
{
    let flag = match json_bool(proposal.reset_state) {
        Some(s) => s,
        None => String::new(),
    };
    let mut changes: Vec<ParamChange> = Vec::new();
    changes.push(
        ParamChange {
            subspace: "gravity".to_owned(),
            key: "ResetBridgeState".to_owned(),
            value: flag,
        },
    );
    changes.push(
        ParamChange {
            subspace: "gravity".to_owned(),
            key: "ResetBridgeNonce".to_owned(),
            value: json_quoted_u64(proposal.target_reset_nonce),
        },
    );
    ParameterChangeProposal {
        title: "Reset Bridge State".to_owned(),
        description: "Reset the bridge state to before the conflicting claims".to_owned(),
        changes,
    }
}

} // verus!
