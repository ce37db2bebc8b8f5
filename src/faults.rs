use vstd::prelude::*;
use crate::error::ScenarioError;

verus! {

/// One oracle's assertion that a deposit happened on the Ethereum side.
#[derive(Debug, Clone)]
pub struct AttestationClaim {
    pub event_nonce: u64,
    pub block_height: u64,
    pub token_contract: String,
    pub amount: String,
    pub ethereum_sender: String,
    pub cosmos_receiver: String,
    pub orchestrator: String,
}

/// The claim's fields as plain values.
pub struct ClaimView {
    pub event_nonce: u64,
    pub block_height: u64,
    pub token_contract: Seq<char>,
    pub amount: Seq<char>,
    pub ethereum_sender: Seq<char>,
    pub cosmos_receiver: Seq<char>,
    pub orchestrator: Seq<char>,
}

impl View for AttestationClaim {
    type V = ClaimView;

    open spec fn view(&self) -> ClaimView {
        ClaimView {
            event_nonce: self.event_nonce,
            block_height: self.block_height,
            token_contract: self.token_contract@,
            amount: self.amount@,
            ethereum_sender: self.ethereum_sender@,
            cosmos_receiver: self.cosmos_receiver@,
            orchestrator: self.orchestrator@,
        }
    }
}

/// Builds the claim that `orchestrator` submits for a deposit of `amount` of
/// `token_contract` from `ethereum_sender` to `cosmos_receiver`.
pub fn create_claim(
    nonce: u64,
    height: u64,
    token_contract: &String,
    amount: &String,
    ethereum_sender: &String,
    cosmos_receiver: &String,
    orchestrator: &String,
) -> (r: AttestationClaim)
    ensures
        r@ == (ClaimView {
            event_nonce: nonce,
            block_height: height,
            token_contract: token_contract@,
            amount: amount@,
            ethereum_sender: ethereum_sender@,
            cosmos_receiver: cosmos_receiver@,
            orchestrator: orchestrator@,
        }),
{
    AttestationClaim {
        event_nonce: nonce,
        block_height: height,
        token_contract: token_contract.clone(),
        amount: amount.clone(),
        ethereum_sender: ethereum_sender.clone(),
        cosmos_receiver: cosmos_receiver.clone(),
        orchestrator: orchestrator.clone(),
    }
}

/// The template of the conflicting claim: a deposit that never happened, one
/// event past `baseline_nonce` and one block past `latest_height`, not yet tied to
/// an oracle. Fails with `NonceOverflow` when either cannot be advanced.
pub fn conflicting_template(
    baseline_nonce: u64,
    latest_height: u64,
    token_contract: &String,
    amount: &String,
    ethereum_sender: &String,
    cosmos_receiver: &String,
) -> (r: Result<AttestationClaim, ScenarioError>)
    ensures
        match r {
            Ok(c) => baseline_nonce < u64::MAX && latest_height < u64::MAX && c@ == (ClaimView {
                event_nonce: (baseline_nonce + 1) as u64,
                block_height: (latest_height + 1) as u64,
                token_contract: token_contract@,
                amount: amount@,
                ethereum_sender: ethereum_sender@,
                cosmos_receiver: cosmos_receiver@,
                orchestrator: Seq::empty(),
            }),
            Err(e) => (baseline_nonce == u64::MAX || latest_height == u64::MAX)
                && e is NonceOverflow,
        },
{
    if baseline_nonce == u64::MAX || latest_height == u64::MAX {
        return Err(ScenarioError::NonceOverflow);
    }
    let nobody = String::new();
    Ok(
        create_claim(
            baseline_nonce + 1,
            latest_height + 1,
            token_contract,
            amount,
            ethereum_sender,
            cosmos_receiver,
            &nobody,
        ),
    )
}

/// The claim `template` as submitted by `orchestrator`: every other field is shared.
pub open spec fn claim_by(template: ClaimView, orchestrator: Seq<char>) -> ClaimView {
    ClaimView { orchestrator, ..template }
}

/// A valid faulty set for `n` validators: not empty, every index in range and
/// other than the honest baseline validator 0, and no index twice.
pub open spec fn valid_minority(n: nat, minority: Seq<usize>) -> bool {
    &&& minority.len() > 0
    &&& forall|k: int| 0 <= k < minority.len() ==> 0 < #[trigger] minority[k] < n
    &&& forall|a: int, b: int|
        0 <= a < minority.len() && 0 <= b < minority.len() && a != b ==> minority[a]
            != minority[b]
}

/// Whether `minority` is a valid faulty set for `n` validators.
pub fn check_minority(n: usize, minority: &Vec<usize>) -> (r: bool)
    ensures
        r == valid_minority(n as nat, minority@),
{
    if minority.len() == 0 {
        return false;
    }
    let mut a: usize = 0;
    while a < minority.len()
        invariant
            a <= minority@.len(),
            forall|k: int| 0 <= k < a ==> 0 < #[trigger] minority@[k] < n,
            forall|x: int, y: int|
                0 <= x < a && 0 <= y < minority@.len() && x != y ==> minority@[x] != minority@[y],
        decreases minority@.len() - a,
    {
        if minority[a] == 0 || minority[a] >= n {
            return false;
        }
        let mut b: usize = 0;
        while b < minority.len()
            invariant
                a < minority@.len(),
                b <= minority@.len(),
                forall|y: int| 0 <= y < b && y != a ==> minority@[a as int] != minority@[y],
            decreases minority@.len() - b,
        {
            if b != a && minority[a] == minority[b] {
                return false;
            }
            b += 1;
        }
        a += 1;
    }
    true
}

/// The membership mask of a faulty set: entry `i` is set when validator `i` is in it.
pub open spec fn fault_mask_spec(n: nat, minority: Seq<usize>) -> Seq<bool> {
    Seq::new(n, |i: int| exists|k: int| 0 <= k < minority.len() && minority[k] == i)
}

/// Turns a faulty set into its membership mask over `n` validators.
pub fn fault_mask(n: usize, minority: &Vec<usize>) -> (r: Vec<bool>)
    ensures
        r@ == fault_mask_spec(n as nat, minority@),
{
    let mut mask: Vec<bool> = Vec::new();
    let mut i: usize = 0;
    while i < n
        invariant
            i <= n,
            mask@.len() == i,
            forall|j: int| 0 <= j < i ==> mask@[j] == fault_mask_spec(n as nat, minority@)[j],
        decreases n - i,
    {
        let mut found = false;
        let mut k: usize = 0;
        while k < minority.len()
            invariant
                k <= minority@.len(),
                found == exists|x: int| 0 <= x < k && minority@[x] == i,
            decreases minority@.len() - k,
        {
            if minority[k] == i {
                found = true;
            }
            k += 1;
        }
        mask.push(found);
        i += 1;
    }
    assert(mask@ =~= fault_mask_spec(n as nat, minority@));
    mask
}

/// Builds the conflicting claims of a faulty set: for each member, in the order
/// given, the template as submitted by that member's own oracle address. Fails
/// with `InvalidMinority` exactly when `minority` is no valid faulty set for the
/// validators whose oracle addresses are given.
pub fn false_claims(
    template: &AttestationClaim,
    orchestrators: &Vec<String>,
    minority: &Vec<usize>,
) -> (r: Result<Vec<AttestationClaim>, ScenarioError>)
    ensures
        match r {
            Ok(v) => valid_minority(orchestrators@.len(), minority@) && v@.len()
                == minority@.len() && forall|k: int|
                0 <= k < v@.len() ==> (#[trigger] v@[k])@ == claim_by(
                    template@,
                    orchestrators@[minority@[k] as int]@,
                ),
            Err(e) => !valid_minority(orchestrators@.len(), minority@) && e is InvalidMinority,
        },
{
    if !check_minority(orchestrators.len(), minority) {
        return Err(ScenarioError::InvalidMinority);
    }
    let mut out: Vec<AttestationClaim> = Vec::new();
    let mut k: usize = 0;
    while k < minority.len()
        invariant
            valid_minority(orchestrators@.len(), minority@),
            k <= minority@.len(),
            out@.len() == k,
            forall|j: int|
                0 <= j < k ==> (#[trigger] out@[j])@ == claim_by(
                    template@,
                    orchestrators@[minority@[j] as int]@,
                ),
        decreases minority@.len() - k,
    {
        let member = minority[k];
        let claim = create_claim(
            template.event_nonce,
            template.block_height,
            &template.token_contract,
            &template.amount,
            &template.ethereum_sender,
            &template.cosmos_receiver,
            &orchestrators[member],
        );
        out.push(claim);
        k += 1;
    }
    Ok(out)
}

/// The validator indices whose submission failed, in submission order.
pub open spec fn failed_members(minority: Seq<usize>, confirmed: Seq<bool>) -> Seq<usize>
    decreases confirmed.len(),
{
    if confirmed.len() == 0 || minority.len() == 0 {
        Seq::empty()
    } else {
        let prev = failed_members(minority.drop_last(), confirmed.drop_last());
        if confirmed.last() {
            prev
        } else {
            prev.push(minority.last())
        }
    }
}

/// Aggregates the outcomes of a concurrent fan-out, one per member of
/// `members` in the same order: `Ok` when every one was confirmed, else a
/// `PartialFailure` that lists the members whose operation failed.
pub fn join_outcomes(members: &Vec<usize>, confirmed: &Vec<bool>) -> (r: Result<(), ScenarioError>)
    requires
        members@.len() == confirmed@.len(),
    ensures
        match r {
            Ok(()) => forall|k: int| 0 <= k < confirmed@.len() ==> #[trigger] confirmed@[k],
            Err(ScenarioError::PartialFailure(failed)) => failed@ == failed_members(
                members@,
                confirmed@,
            ) && exists|k: int| 0 <= k < confirmed@.len() && !#[trigger] confirmed@[k],
            Err(_) => false,
        },
{
    let mut failed: Vec<usize> = Vec::new();
    let mut i: usize = 0;
    while i < confirmed.len()
        invariant
            members@.len() == confirmed@.len(),
            i <= confirmed@.len(),
            failed@ == failed_members(members@.take(i as int), confirmed@.take(i as int)),
            failed@.len() == 0 <==> forall|k: int| 0 <= k < i ==> #[trigger] confirmed@[k],
        decreases confirmed@.len() - i,
    {
        assert(members@.take(i + 1).drop_last() =~= members@.take(i as int));
        assert(confirmed@.take(i + 1).drop_last() =~= confirmed@.take(i as int));
        if !confirmed[i] {
            failed.push(members[i]);
        }
        i += 1;
    }
    assert(members@.take(i as int) =~= members@);
    assert(confirmed@.take(i as int) =~= confirmed@);
    if failed.len() == 0 {
        Ok(())
    } else {
        Err(ScenarioError::PartialFailure(failed))
    }
}

} // verus!
