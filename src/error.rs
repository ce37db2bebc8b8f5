use vstd::prelude::*;

verus! {

/// Every way in which a step of the scenario can fail.
#[derive(Debug, Clone)]
pub enum ScenarioError {
    /// A chain query or submission could not reach the node, or timed out.
    Transport,
    /// The chain rejected or reverted a transaction.
    ChainRejection,
    /// A polled predicate never held before the deadline.
    ConvergenceTimeout,
    /// Some of the operations of a fan-out failed: the validator indices that failed.
    PartialFailure(Vec<usize>),
    /// Observed state contradicts what the scenario expects at this point.
    InvariantViolation,
    /// Key material from which no address can be derived.
    InvalidKey,
    /// A set of faulty validators that is empty, out of range, repeated or holds
    /// the honest baseline validator.
    InvalidMinority,
    /// An event nonce or block height that cannot be advanced without overflow.
    NonceOverflow,
}

} // verus!
