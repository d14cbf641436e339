//! Two small on-ledger state machines: a custody vault moving native-currency
//! balances under a lock flag and an authority check, and a registry of
//! content-addressed comment and reaction records attached to a parent post.
//!
//! The host runtime that resolves accounts, authenticates signers and commits
//! each call atomically is an external collaborator: the entry points here are
//! pure state transitions over the account records the host hands in, and each
//! carries a contract that pins the outcome for every input.

use vstd::prelude::*;

pub mod digest;
pub mod twitter;
pub mod vault;

verus! {

/// An account identity on the host ledger, reduced to the number the logic
/// compares; the host guarantees each participant's identity is authentic.
#[derive(Clone, Copy, PartialEq, Eq, Structural, Debug)]
pub struct AccountId(pub u64);

} // verus!
