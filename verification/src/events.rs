//! The events a successful operation emits.
//!
//! Emission is modeled as a return value: each operation hands back exactly
//! one event on success and none on failure, so an observer's view of the
//! record's history is the sequence of returned events.

use vstd::prelude::*;
use crate::identity::Identity;

verus! {

/// A record was created and the maker's deposit taken into custody.
#[derive(Clone, Copy, Debug, PartialEq, Eq, Structural)]
pub struct EscrowCreated {
    pub escrow: Identity,
    pub maker: Identity,
    pub escrow_id: u64,
    pub amount_a: u64,
    pub amount_b_expected: u64,
    pub expiry_ts: i64,
    pub ts: i64,
}

/// The designated taker matched the maker's deposit.
#[derive(Clone, Copy, Debug, PartialEq, Eq, Structural)]
pub struct EscrowFunded {
    pub escrow: Identity,
    pub taker: Identity,
    pub amount_b: u64,
    pub ts: i64,
}

/// The swap settled: both custody balances were paid out.
#[derive(Clone, Copy, Debug, PartialEq, Eq, Structural)]
pub struct EscrowCompleted {
    pub escrow: Identity,
    pub maker: Identity,
    pub taker: Identity,
    pub ts: i64,
}

/// The maker withdrew an unfunded record before settlement.
#[derive(Clone, Copy, Debug, PartialEq, Eq, Structural)]
pub struct EscrowCancelled {
    pub escrow: Identity,
    pub maker: Identity,
    pub ts: i64,
}

/// The maker reclaimed an unfunded record after its deadline.
#[derive(Clone, Copy, Debug, PartialEq, Eq, Structural)]
pub struct EscrowRefunded {
    pub escrow: Identity,
    pub maker: Identity,
    pub ts: i64,
}

} // verus!
