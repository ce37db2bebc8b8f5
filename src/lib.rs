//! Decision logic of a bridge halt and recovery scenario: validator identities,
//! bounded polling, nonce agreement checks, fault injection plans, governance
//! recovery proposals and the scenario state machine that ties them together.
use vstd::prelude::*;

pub mod error;
pub mod validators;
pub mod nonces;
pub mod poller;
pub mod faults;
pub mod governance;
pub mod scenario;

verus! {

} // verus!
