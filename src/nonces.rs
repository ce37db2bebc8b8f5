use vstd::prelude::*;
use crate::error::ScenarioError;

verus! {

/// All nonces of the snapshot are equal.
pub open spec fn all_equal(s: Seq<u64>) -> bool {
    forall|i: int, j: int| 0 <= i < s.len() && 0 <= j < s.len() ==> s[i] == s[j]
}

/// Every nonce of the snapshot equals `v`.
pub open spec fn all_at(s: Seq<u64>, v: u64) -> bool {
    forall|i: int| 0 <= i < s.len() ==> s[i] == v
}

/// The nonces split into exactly the groups that `labels` gives: two validators
/// report the same nonce if and only if they carry the same label.
pub open spec fn partitions_as(s: Seq<u64>, labels: Seq<usize>) -> bool {
    s.len() == labels.len() && forall|i: int, j: int|
        0 <= i < s.len() && 0 <= j < s.len() ==> ((s[i] == s[j]) <==> (labels[i] == labels[j]))
}

/// The snapshot expected once the bridge halts: validators marked faulty are one
/// event ahead of the baseline nonce, the others stay at it.
pub open spec fn halted_snapshot(baseline: u64, faulty: Seq<bool>) -> Seq<u64> {
    Seq::new(faulty.len(), |i: int| if faulty[i] { (baseline + 1) as u64 } else { baseline })
}

/// The snapshot made of the per-validator query results, if every query succeeded.
pub open spec fn snapshot_of(results: Seq<Result<u64, ScenarioError>>) -> Option<Seq<u64>> {
    if forall|i: int| 0 <= i < results.len() ==> (#[trigger] results[i]) is Ok {
        Some(Seq::new(results.len(), |i: int| results[i]->Ok_0))
    } else {
        None
    }
}

/// Joins the per-validator nonce queries of one poll round into a snapshot,
/// index by index. A single failed query fails the whole round with the error of
/// the first one that failed: no partial snapshot is ever returned.
pub fn assemble_snapshot(results: Vec<Result<u64, ScenarioError>>) -> (r: Result<
    Vec<u64>,
    ScenarioError,
>)
    ensures
        match r {
            Ok(v) => snapshot_of(results@) == Some(v@),
            Err(e) => snapshot_of(results@) is None && exists|k: int|
                0 <= k < results@.len() && results@[k] == Err::<u64, ScenarioError>(e) && forall|
                    j: int,
                | 0 <= j < k ==> (#[trigger] results@[j]) is Ok,
        },
{
    let mut out: Vec<u64> = Vec::new();
    let mut i: usize = 0;
    while i < results.len()
        invariant
            i <= results@.len(),
            out@.len() == i,
            forall|j: int| 0 <= j < i ==> (#[trigger] results@[j]) is Ok,
            forall|j: int| 0 <= j < i ==> out@[j] == (#[trigger] results@[j])->Ok_0,
        decreases results@.len() - i,
    {
        if results[i].is_err() {
            let ghost all = results@;
            let mut rest = results;
            let failed = rest.remove(i);
            assert(failed == all[i as int]);
            return match failed {
                Err(e) => Err(e),
                Ok(_) => {
                    assert(false);
                    Err(ScenarioError::Transport)
                },
            };
        }
        out.push(*results[i].as_ref().unwrap());
        i += 1;
    }
    assert(out@ =~= Seq::new(results@.len(), |k: int| results@[k]->Ok_0));
    Ok(out)
}

/// Whether every validator reports the same nonce.
pub fn nonces_agree(snapshot: &Vec<u64>) -> (r: bool)
    ensures
        r == all_equal(snapshot@),
{
    if snapshot.len() == 0 {
        return true;
    }
    let first = snapshot[0];
    let mut i: usize = 1;
    while i < snapshot.len()
        invariant
            1 <= i <= snapshot@.len(),
            first == snapshot@[0],
            forall|j: int| 0 <= j < i ==> snapshot@[j] == first,
        decreases snapshot@.len() - i,
    {
        if snapshot[i] != first {
            return false;
        }
        i += 1;
    }
    true
}

/// Whether every validator reports exactly `nonce`.
pub fn nonces_all_at(snapshot: &Vec<u64>, nonce: u64) -> (r: bool)
    ensures
        r == all_at(snapshot@, nonce),
{
    let mut i: usize = 0;
    while i < snapshot.len()
        invariant
            i <= snapshot@.len(),
            forall|j: int| 0 <= j < i ==> snapshot@[j] == nonce,
        decreases snapshot@.len() - i,
    {
        if snapshot[i] != nonce {
            return false;
        }
        i += 1;
    }
    true
}

/// Whether the nonces fall into exactly the groups that `labels` assigns:
/// validators with equal labels agree, validators with different labels differ.
pub fn matches_groups(snapshot: &Vec<u64>, labels: &Vec<usize>) -> (r: bool)
    ensures
        r == partitions_as(snapshot@, labels@),
{
    if snapshot.len() != labels.len() {
        return false;
    }
    let n = snapshot.len();
    let mut i: usize = 0;
    while i < n
        invariant
            n == snapshot@.len() == labels@.len(),
            i <= n,
            forall|a: int, b: int|
                0 <= a < i && 0 <= b < n ==> ((snapshot@[a] == snapshot@[b]) <==> (labels@[a]
                    == labels@[b])),
        decreases n - i,
    {
        let mut j: usize = 0;
        while j < n
            invariant
                n == snapshot@.len() == labels@.len(),
                i < n,
                j <= n,
                forall|a: int, b: int|
                    0 <= a < i && 0 <= b < n ==> ((snapshot@[a] == snapshot@[b]) <==> (labels@[a]
                        == labels@[b])),
                forall|b: int|
                    0 <= b < j ==> ((snapshot@[i as int] == snapshot@[b]) <==> (labels@[i as int]
                        == labels@[b])),
            decreases n - j,
        {
            if (snapshot[i] == snapshot[j]) != (labels[i] == labels[j]) {
                return false;
            }
            j += 1;
        }
        i += 1;
    }
    true
}

/// Whether the snapshot is the halted one: faulty validators exactly one event
/// ahead of `baseline`, the others exactly at it.
pub fn is_halted_snapshot(snapshot: &Vec<u64>, baseline: u64, faulty: &Vec<bool>) -> (r: bool)
    requires
        baseline < u64::MAX,
    ensures
        r == (snapshot@ == halted_snapshot(baseline, faulty@)),
{
    if snapshot.len() != faulty.len() {
        return false;
    }
    let mut i: usize = 0;
    while i < snapshot.len()
        invariant
            baseline < u64::MAX,
            snapshot@.len() == faulty@.len(),
            i <= snapshot@.len(),
            forall|j: int|
                0 <= j < i ==> snapshot@[j] == (if faulty@[j] {
                    (baseline + 1) as u64
                } else {
                    baseline
                }),
        decreases snapshot@.len() - i,
    {
        let expected = if faulty[i] {
            baseline + 1
        } else {
            baseline
        };
        if snapshot[i] != expected {
            assert(snapshot@[i as int] != halted_snapshot(baseline, faulty@)[i as int]);
            return false;
        }
        i += 1;
    }
    assert(snapshot@ =~= halted_snapshot(baseline, faulty@));
    true
}

} // verus!
