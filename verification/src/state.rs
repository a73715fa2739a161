//! The escrow record and its invariants.

use vstd::prelude::*;
use crate::identity::Identity;

verus! {

/// One escrow's full persistent state. One instance exists per
/// (maker, escrow_id) pair; the hosting ledger stores it at an address
/// derived from those two values and keeps the custody balance alongside it.
#[derive(Clone, Copy, Debug, PartialEq, Eq, Structural)]
pub struct EscrowAccount {
    /// The party who created the record and locked `amount_a`; the only
    /// party who may cancel or reclaim it.
    pub maker: Identity,
    /// The party expected to fund side B. Fixed at creation; cleared to
    /// `None` only by a completed swap.
    pub taker: Option<Identity>,
    /// Distinguishes several escrows by the same maker; part of the
    /// address derivation.
    pub escrow_id: u64,
    /// The quantity the maker locked at creation.
    pub amount_a: u64,
    /// The quantity the taker must supply to fund.
    pub amount_b_expected: u64,
    /// True once the taker's deposit has landed.
    pub is_funded: bool,
    /// True from creation until the one terminal transition.
    pub is_active: bool,
    /// True only after a completed swap.
    pub is_completed: bool,
    /// The funding deadline; settlement itself has no deadline once funded.
    pub expiry_ts: i64,
    /// The derivation nonce the host chose for the record's address,
    /// recorded so the address can be re-derived later.
    pub bump: u8,
}

/// The record invariant. Every reachable record satisfies it: creation
/// establishes it and each operation preserves it.
pub open spec fn escrow_wf(e: EscrowAccount) -> bool {
    &&& e.amount_a > 0
    &&& e.amount_b_expected > 0
    &&& (e.is_funded ==> e.is_active)
    &&& (e.is_completed ==> !e.is_active && !e.is_funded)
    &&& (e.is_active ==> e.taker is Some)
    &&& (e.is_completed ==> e.taker is None)
}

/// The balance the record must hold in custody in each phase: `amount_a`
/// once created, both amounts once funded, and exactly zero in a terminal
/// state — nothing may be left behind or overdrawn.
pub open spec fn expected_custody(e: EscrowAccount) -> int {
    if !e.is_active {
        0
    } else if e.is_funded {
        e.amount_a + e.amount_b_expected
    } else {
        e.amount_a as int
    }
}

/// On a well-formed record the three phase flags take exactly one of the
/// four legal shapes: created, funded, completed, or cancelled/reclaimed.
/// Any other combination is unreachable.
pub proof fn lemma_legal_phases(e: EscrowAccount)
    requires
        escrow_wf(e),
    ensures
        (e.is_active && !e.is_funded && !e.is_completed)
            || (e.is_active && e.is_funded && !e.is_completed)
            || (!e.is_active && !e.is_funded && e.is_completed)
            || (!e.is_active && !e.is_funded && !e.is_completed),
{
}

impl EscrowAccount {
    /// The storage footprint the host must reserve for one record: the
    /// account discriminator, each field in its serialized width, and a
    /// reserved padding region for forward compatibility.
    pub fn calculate_max_space() -> (space: usize)
        ensures
            space == 237,
    {
        let mut size: usize = 8;
        size += 32;
        size += 1 + 32;
        size += 8;
        size += 8 + 8;
        size += 1 + 1 + 1;
        size += 8;
        size += 1;
        size += 128;
        size
    }
}

} // verus!
