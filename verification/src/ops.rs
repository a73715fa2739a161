//! The five operations of the escrow state machine.
//!
//! Each operation is an atomic step: it takes the accounts it touches as one
//! context value, together with the caller's proven identity and the host
//! clock reading, and either commits every field write and balance move at
//! once, returning the event it emits, or returns an error and leaves the
//! context untouched. The guard of each operation is written once, as a spec
//! function, and the operation's contract says that it succeeds exactly when
//! the guard allows and otherwise returns precisely the guard's error.
//!
//! Balance moves are the host ledger's work; here each party's balance is a
//! plain field of the context, so the moves are verified arithmetic. The
//! caller (the host) guarantees the debited party can cover its deposit and
//! that no credited balance overflows, as a real ledger does.

use vstd::prelude::*;
use crate::errors::EscrowError;
use crate::events::EscrowCancelled;
use crate::events::EscrowCompleted;
use crate::events::EscrowCreated;
use crate::events::EscrowFunded;
use crate::events::EscrowRefunded;
use crate::identity::Identity;
use crate::state::escrow_wf;
use crate::state::expected_custody;
use crate::state::EscrowAccount;

verus! {

/// The accounts `create_escrow` touches: a freshly allocated record (no
/// custody yet) and the maker, who signs and pays the deposit.
pub struct CreateEscrow {
    /// The freshly allocated record; every field is overwritten on success.
    pub escrow: EscrowAccount,
    /// The record's held balance. Zero at entry: the record was just allocated.
    pub custody: u64,
    /// The record's derived address, under which events name it.
    pub escrow_key: Identity,
    /// The derivation nonce the host found for `escrow_key`.
    pub bump: u8,
    /// The caller, proven by the host to have signed this operation.
    pub maker: Identity,
    /// The caller's balance.
    pub maker_balance: u64,
}

/// The guard of `create_escrow`: both amounts must be positive and the
/// deadline strictly in the future, in that order of report.
pub open spec fn create_check(
    amount_a: u64,
    amount_b_expected: u64,
    expiry_ts: i64,
    now: i64,
) -> Result<(), EscrowError> {
    if amount_a == 0 {
        Err(EscrowError::InvalidAmount)
    } else if amount_b_expected == 0 {
        Err(EscrowError::InvalidAmount)
    } else if expiry_ts <= now {
        Err(EscrowError::InvalidExpiry)
    } else {
        Ok(())
    }
}

/// Creates a new escrow record and takes the maker's deposit into custody.
///
/// On success the record starts in the created phase — active, unfunded,
/// uncompleted, with the taker fixed — and custody holds exactly `amount_a`,
/// moved out of the maker's balance. On failure nothing changes.
pub fn create_escrow(
    ctx: &mut CreateEscrow,
    escrow_id: u64,
    amount_a: u64,
    amount_b_expected: u64,
    expiry_ts: i64,
    taker_pubkey: Identity,
    now: i64,
) -> (r: Result<EscrowCreated, EscrowError>)
    requires
        old(ctx).custody == 0,
        create_check(amount_a, amount_b_expected, expiry_ts, now) is Ok
            ==> old(ctx).maker_balance >= amount_a,
    ensures
        r is Ok <==> create_check(amount_a, amount_b_expected, expiry_ts, now) is Ok,
        r matches Err(e) ==> {
            &&& Err::<(), EscrowError>(e) == create_check(amount_a, amount_b_expected, expiry_ts, now)
            &&& *final(ctx) == *old(ctx)
        },
        r is Ok ==> final(ctx).escrow == (EscrowAccount {
            maker: old(ctx).maker,
            taker: Some(taker_pubkey),
            escrow_id,
            amount_a,
            amount_b_expected,
            is_funded: false,
            is_active: true,
            is_completed: false,
            expiry_ts,
            bump: old(ctx).bump,
        }),
        r is Ok ==> {
            &&& final(ctx).custody == amount_a
            &&& final(ctx).maker_balance == old(ctx).maker_balance - amount_a
            &&& final(ctx).escrow_key == old(ctx).escrow_key
            &&& final(ctx).bump == old(ctx).bump
            &&& final(ctx).maker == old(ctx).maker
        },
        r is Ok ==> escrow_wf(final(ctx).escrow)
            && final(ctx).custody == expected_custody(final(ctx).escrow),
        r matches Ok(ev) ==> ev == (EscrowCreated {
            escrow: old(ctx).escrow_key,
            maker: old(ctx).maker,
            escrow_id,
            amount_a,
            amount_b_expected,
            expiry_ts,
            ts: now,
        }),
{
    if amount_a == 0 {
        return Err(EscrowError::InvalidAmount);
    }
    if amount_b_expected == 0 {
        return Err(EscrowError::InvalidAmount);
    }
    if expiry_ts <= now {
        return Err(EscrowError::InvalidExpiry);
    }

    ctx.escrow = EscrowAccount {
        maker: ctx.maker,
        taker: Some(taker_pubkey),
        escrow_id,
        amount_a,
        amount_b_expected,
        is_funded: false,
        is_active: true,
        is_completed: false,
        expiry_ts,
        bump: ctx.bump,
    };

    ctx.maker_balance = ctx.maker_balance - amount_a;
    ctx.custody = ctx.custody + amount_a;

    Ok(EscrowCreated {
        escrow: ctx.escrow_key,
        maker: ctx.maker,
        escrow_id,
        amount_a,
        amount_b_expected,
        expiry_ts,
        ts: now,
    })
}

/// The accounts `fund_escrow` touches: the live record and the taker, who
/// signs and supplies the matching deposit.
pub struct FundEscrow {
    /// The record being funded.
    pub escrow: EscrowAccount,
    /// The record's held balance.
    pub custody: u64,
    /// The record's derived address, under which events name it.
    pub escrow_key: Identity,
    /// The caller, proven by the host to have signed this operation.
    pub taker: Identity,
    /// The caller's balance.
    pub taker_balance: u64,
}

/// The guard of `fund_escrow`: the record must be active and unfunded, the
/// caller must be the designated taker, and the clock must read strictly
/// before the deadline — funding after expiry is refused even though the
/// record is still active.
pub open spec fn fund_check(e: EscrowAccount, caller: Identity, now: i64) -> Result<
    (),
    EscrowError,
> {
    if !e.is_active {
        Err(EscrowError::NotActive)
    } else if e.is_funded {
        Err(EscrowError::AlreadyFunded)
    } else if e.taker != Some(caller) {
        Err(EscrowError::Unauthorized)
    } else if now >= e.expiry_ts {
        Err(EscrowError::EscrowExpired)
    } else {
        Ok(())
    }
}

/// Moves the taker's matching deposit into custody and marks the record
/// funded.
///
/// On success custody holds `amount_a + amount_b_expected`, the taker field
/// is re-affirmed to the same party, and every other record field is
/// unchanged. On failure nothing changes.
pub fn fund_escrow(ctx: &mut FundEscrow, now: i64) -> (r: Result<EscrowFunded, EscrowError>)
    requires
        escrow_wf(old(ctx).escrow),
        old(ctx).custody == expected_custody(old(ctx).escrow),
        fund_check(old(ctx).escrow, old(ctx).taker, now) is Ok ==> {
            &&& old(ctx).taker_balance >= old(ctx).escrow.amount_b_expected
            &&& old(ctx).custody + old(ctx).escrow.amount_b_expected <= u64::MAX
        },
    ensures
        r is Ok <==> fund_check(old(ctx).escrow, old(ctx).taker, now) is Ok,
        r matches Err(e) ==> {
            &&& Err::<(), EscrowError>(e) == fund_check(old(ctx).escrow, old(ctx).taker, now)
            &&& *final(ctx) == *old(ctx)
        },
        r is Ok ==> final(ctx).escrow == (EscrowAccount {
            is_funded: true,
            ..old(ctx).escrow
        }),
        r is Ok ==> {
            &&& final(ctx).custody == old(ctx).custody + old(ctx).escrow.amount_b_expected
            &&& final(ctx).taker_balance == old(ctx).taker_balance
                - old(ctx).escrow.amount_b_expected
            &&& final(ctx).escrow_key == old(ctx).escrow_key
            &&& final(ctx).taker == old(ctx).taker
        },
        r is Ok ==> escrow_wf(final(ctx).escrow)
            && final(ctx).custody == expected_custody(final(ctx).escrow),
        r matches Ok(ev) ==> ev == (EscrowFunded {
            escrow: old(ctx).escrow_key,
            taker: old(ctx).taker,
            amount_b: old(ctx).escrow.amount_b_expected,
            ts: now,
        }),
{
    if !ctx.escrow.is_active {
        return Err(EscrowError::NotActive);
    }
    if ctx.escrow.is_funded {
        return Err(EscrowError::AlreadyFunded);
    }
    let designated = match ctx.escrow.taker {
        Some(t) => t,
        None => {
            return Err(EscrowError::Unauthorized);
        },
    };
    if designated != ctx.taker {
        return Err(EscrowError::Unauthorized);
    }
    if now >= ctx.escrow.expiry_ts {
        return Err(EscrowError::EscrowExpired);
    }

    let amount_b: u64 = ctx.escrow.amount_b_expected;
    ctx.taker_balance = ctx.taker_balance - amount_b;
    ctx.custody = ctx.custody + amount_b;

    ctx.escrow.is_funded = true;
    ctx.escrow.taker = Some(ctx.taker);

    Ok(EscrowFunded { escrow: ctx.escrow_key, taker: ctx.taker, amount_b, ts: now })
}

/// The accounts `complete_swap` touches: the funded record, the taker (who
/// signs and receives side A) and the maker's balance (which receives side B).
pub struct CompleteSwap {
    /// The record being settled.
    pub escrow: EscrowAccount,
    /// The record's held balance.
    pub custody: u64,
    /// The record's derived address, under which events name it.
    pub escrow_key: Identity,
    /// The caller, proven by the host to have signed this operation.
    pub taker: Identity,
    /// The caller's balance.
    pub taker_balance: u64,
    /// The balance of `escrow.maker`; the host looks the account up by the
    /// maker identity the record names.
    pub maker_balance: u64,
}

/// The guard of `complete_swap`: the record must be active and funded, a
/// taker must be recorded (defensive — a well-formed funded record always
/// has one), and the caller must be that taker. Settlement has no deadline.
pub open spec fn complete_check(e: EscrowAccount, caller: Identity) -> Result<(), EscrowError> {
    if !e.is_active {
        Err(EscrowError::NotActive)
    } else if !e.is_funded {
        Err(EscrowError::NotFunded)
    } else if e.taker is None {
        Err(EscrowError::TakerNotSet)
    } else if e.taker != Some(caller) {
        Err(EscrowError::Unauthorized)
    } else {
        Ok(())
    }
}

/// Settles the swap: pays `amount_a` from custody to the taker and
/// `amount_b_expected` from custody to the maker, leaving custody exactly
/// zero, and moves the record to its completed terminal state with the
/// taker cleared.
///
/// The two payouts total precisely the funded custody balance, so their
/// order does not matter. On failure nothing changes.
pub fn complete_swap(ctx: &mut CompleteSwap, now: i64) -> (r: Result<EscrowCompleted, EscrowError>)
    requires
        escrow_wf(old(ctx).escrow),
        old(ctx).custody == expected_custody(old(ctx).escrow),
        complete_check(old(ctx).escrow, old(ctx).taker) is Ok ==> {
            &&& old(ctx).taker_balance + old(ctx).escrow.amount_a <= u64::MAX
            &&& old(ctx).maker_balance + old(ctx).escrow.amount_b_expected <= u64::MAX
        },
    ensures
        r is Ok <==> complete_check(old(ctx).escrow, old(ctx).taker) is Ok,
        r matches Err(e) ==> {
            &&& Err::<(), EscrowError>(e) == complete_check(old(ctx).escrow, old(ctx).taker)
            &&& *final(ctx) == *old(ctx)
        },
        r is Ok ==> final(ctx).escrow == (EscrowAccount {
            taker: None,
            is_funded: false,
            is_active: false,
            is_completed: true,
            ..old(ctx).escrow
        }),
        r is Ok ==> {
            &&& final(ctx).custody == 0
            &&& final(ctx).taker_balance == old(ctx).taker_balance + old(ctx).escrow.amount_a
            &&& final(ctx).maker_balance == old(ctx).maker_balance
                + old(ctx).escrow.amount_b_expected
            &&& final(ctx).escrow_key == old(ctx).escrow_key
            &&& final(ctx).taker == old(ctx).taker
        },
        r is Ok ==> escrow_wf(final(ctx).escrow)
            && final(ctx).custody == expected_custody(final(ctx).escrow),
        r matches Ok(ev) ==> ev == (EscrowCompleted {
            escrow: old(ctx).escrow_key,
            maker: old(ctx).escrow.maker,
            taker: old(ctx).taker,
            ts: now,
        }),
{
    if !ctx.escrow.is_active {
        return Err(EscrowError::NotActive);
    }
    if !ctx.escrow.is_funded {
        return Err(EscrowError::NotFunded);
    }
    let taker_key = match ctx.escrow.taker {
        Some(t) => t,
        None => {
            return Err(EscrowError::TakerNotSet);
        },
    };
    if taker_key != ctx.taker {
        return Err(EscrowError::Unauthorized);
    }

    ctx.custody = ctx.custody - ctx.escrow.amount_a;
    ctx.taker_balance = ctx.taker_balance + ctx.escrow.amount_a;

    ctx.custody = ctx.custody - ctx.escrow.amount_b_expected;
    ctx.maker_balance = ctx.maker_balance + ctx.escrow.amount_b_expected;

    ctx.escrow.is_active = false;
    ctx.escrow.is_funded = false;
    ctx.escrow.is_completed = true;
    ctx.escrow.taker = None;

    Ok(EscrowCompleted {
        escrow: ctx.escrow_key,
        maker: ctx.escrow.maker,
        taker: ctx.taker,
        ts: now,
    })
}

/// The accounts `cancel_escrow` and `refund_after_expiry` touch: the record
/// and the maker, who signs and receives the deposit back.
pub struct CancelEscrow {
    /// The record being withdrawn.
    pub escrow: EscrowAccount,
    /// The record's held balance.
    pub custody: u64,
    /// The record's derived address, under which events name it.
    pub escrow_key: Identity,
    /// The caller, proven by the host to have signed this operation.
    pub maker: Identity,
    /// The caller's balance.
    pub maker_balance: u64,
}

/// The guard of `cancel_escrow`: the caller must be the maker and the record
/// active and still unfunded — once the taker has committed funds,
/// settlement is the taker's right and the maker can no longer withdraw.
/// There is no time condition: an unfunded record may be cancelled at any
/// time.
pub open spec fn cancel_check(e: EscrowAccount, caller: Identity) -> Result<(), EscrowError> {
    if e.maker != caller {
        Err(EscrowError::Unauthorized)
    } else if !e.is_active {
        Err(EscrowError::NotActive)
    } else if e.is_funded {
        Err(EscrowError::AlreadyFunded)
    } else {
        Ok(())
    }
}

/// The record after a maker withdrawal, whether by `cancel_escrow` or by
/// `refund_after_expiry`: deactivated, with every other field kept. Both
/// operations also move exactly `amount_a` from custody back to the maker,
/// so the two exits have identical effects; they differ only in when their
/// guards allow them.
pub open spec fn withdrawn_record(e: EscrowAccount) -> EscrowAccount {
    EscrowAccount { is_active: false, ..e }
}

/// Withdraws an unfunded record: returns `amount_a` from custody to the
/// maker and deactivates the record, leaving custody exactly zero. The
/// funded and completed flags stay false; the taker field keeps its value.
/// On failure nothing changes.
pub fn cancel_escrow(ctx: &mut CancelEscrow, now: i64) -> (r: Result<EscrowCancelled, EscrowError>)
    requires
        escrow_wf(old(ctx).escrow),
        old(ctx).custody == expected_custody(old(ctx).escrow),
        cancel_check(old(ctx).escrow, old(ctx).maker) is Ok
            ==> old(ctx).maker_balance + old(ctx).escrow.amount_a <= u64::MAX,
    ensures
        r is Ok <==> cancel_check(old(ctx).escrow, old(ctx).maker) is Ok,
        r matches Err(e) ==> {
            &&& Err::<(), EscrowError>(e) == cancel_check(old(ctx).escrow, old(ctx).maker)
            &&& *final(ctx) == *old(ctx)
        },
        r is Ok ==> final(ctx).escrow == withdrawn_record(old(ctx).escrow),
        r is Ok ==> {
            &&& final(ctx).custody == 0
            &&& final(ctx).maker_balance == old(ctx).maker_balance + old(ctx).escrow.amount_a
            &&& final(ctx).escrow_key == old(ctx).escrow_key
            &&& final(ctx).maker == old(ctx).maker
        },
        r is Ok ==> escrow_wf(final(ctx).escrow)
            && final(ctx).custody == expected_custody(final(ctx).escrow),
        r matches Ok(ev) ==> ev == (EscrowCancelled {
            escrow: old(ctx).escrow_key,
            maker: old(ctx).escrow.maker,
            ts: now,
        }),
{
    if ctx.escrow.maker != ctx.maker {
        return Err(EscrowError::Unauthorized);
    }
    if !ctx.escrow.is_active {
        return Err(EscrowError::NotActive);
    }
    if ctx.escrow.is_funded {
        return Err(EscrowError::AlreadyFunded);
    }

    ctx.custody = ctx.custody - ctx.escrow.amount_a;
    ctx.maker_balance = ctx.maker_balance + ctx.escrow.amount_a;

    ctx.escrow.is_active = false;

    Ok(EscrowCancelled { escrow: ctx.escrow_key, maker: ctx.escrow.maker, ts: now })
}

/// The accounts `refund_after_expiry` touches: the same as `cancel_escrow`.
pub struct RefundAfterExpiry {
    /// The record being reclaimed.
    pub escrow: EscrowAccount,
    /// The record's held balance.
    pub custody: u64,
    /// The record's derived address, under which events name it.
    pub escrow_key: Identity,
    /// The caller, proven by the host to have signed this operation.
    pub maker: Identity,
    /// The caller's balance.
    pub maker_balance: u64,
}

/// The guard of `refund_after_expiry`: as `cancel_check`, plus the clock
/// must read strictly past the deadline. This is the maker's
/// deadline-triggered exit, kept distinct from `cancel_escrow` so a maker
/// always has one once the deadline passes.
pub open spec fn refund_check(e: EscrowAccount, caller: Identity, now: i64) -> Result<
    (),
    EscrowError,
> {
    if e.maker != caller {
        Err(EscrowError::Unauthorized)
    } else if !e.is_active {
        Err(EscrowError::NotActive)
    } else if e.is_funded {
        Err(EscrowError::AlreadyFunded)
    } else if now <= e.expiry_ts {
        Err(EscrowError::NotExpired)
    } else {
        Ok(())
    }
}

/// Reclaims an unfunded record once its deadline has passed: the balance
/// effect and the resulting record are identical to `cancel_escrow`. On
/// failure nothing changes.
pub fn refund_after_expiry(ctx: &mut RefundAfterExpiry, now: i64) -> (r: Result<
    EscrowRefunded,
    EscrowError,
>)
    requires
        escrow_wf(old(ctx).escrow),
        old(ctx).custody == expected_custody(old(ctx).escrow),
        refund_check(old(ctx).escrow, old(ctx).maker, now) is Ok
            ==> old(ctx).maker_balance + old(ctx).escrow.amount_a <= u64::MAX,
    ensures
        r is Ok <==> refund_check(old(ctx).escrow, old(ctx).maker, now) is Ok,
        r matches Err(e) ==> {
            &&& Err::<(), EscrowError>(e) == refund_check(old(ctx).escrow, old(ctx).maker, now)
            &&& *final(ctx) == *old(ctx)
        },
        r is Ok ==> final(ctx).escrow == withdrawn_record(old(ctx).escrow),
        r is Ok ==> {
            &&& final(ctx).custody == 0
            &&& final(ctx).maker_balance == old(ctx).maker_balance + old(ctx).escrow.amount_a
            &&& final(ctx).escrow_key == old(ctx).escrow_key
            &&& final(ctx).maker == old(ctx).maker
        },
        r is Ok ==> escrow_wf(final(ctx).escrow)
            && final(ctx).custody == expected_custody(final(ctx).escrow),
        r matches Ok(ev) ==> ev == (EscrowRefunded {
            escrow: old(ctx).escrow_key,
            maker: old(ctx).escrow.maker,
            ts: now,
        }),
{
    if ctx.escrow.maker != ctx.maker {
        return Err(EscrowError::Unauthorized);
    }
    if !ctx.escrow.is_active {
        return Err(EscrowError::NotActive);
    }
    if ctx.escrow.is_funded {
        return Err(EscrowError::AlreadyFunded);
    }
    if now <= ctx.escrow.expiry_ts {
        return Err(EscrowError::NotExpired);
    }

    ctx.custody = ctx.custody - ctx.escrow.amount_a;
    ctx.maker_balance = ctx.maker_balance + ctx.escrow.amount_a;

    ctx.escrow.is_active = false;

    Ok(EscrowRefunded { escrow: ctx.escrow_key, maker: ctx.escrow.maker, ts: now })
}

/// Reclaiming after the deadline is a restriction of cancelling: whenever
/// `refund_after_expiry`'s guard passes, `cancel_escrow`'s passes on the
/// same record and caller too. Both operations state their effect through
/// `withdrawn_record` and the same balance move, so the deadline exit pays
/// the maker exactly what a cancel would.
pub proof fn lemma_refund_is_restricted_cancel(e: EscrowAccount, caller: Identity, now: i64)
    requires
        refund_check(e, caller, now) is Ok,
    ensures
        cancel_check(e, caller) is Ok,
{
}

/// Terminal states are absorbing: once a record is inactive, funding and
/// settlement are refused as not active whoever calls them, and the maker's
/// own cancel and reclaim are refused as not active too. (A caller other
/// than the maker is turned away from cancel and reclaim even earlier, as
/// unauthorized.) No operation ever sets `is_active` back to true, so no
/// deposit can be taken or paid out of a terminal record again.
pub proof fn lemma_terminal_state_is_absorbing(e: EscrowAccount, caller: Identity, now: i64)
    requires
        !e.is_active,
    ensures
        fund_check(e, caller, now) == Err::<(), EscrowError>(EscrowError::NotActive),
        complete_check(e, caller) == Err::<(), EscrowError>(EscrowError::NotActive),
        caller == e.maker ==> cancel_check(e, caller) == Err::<(), EscrowError>(
            EscrowError::NotActive,
        ),
        caller == e.maker ==> refund_check(e, caller, now) == Err::<(), EscrowError>(
            EscrowError::NotActive,
        ),
{
}

} // verus!
