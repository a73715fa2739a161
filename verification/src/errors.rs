//! The error vocabulary: every way an operation can be refused.
//!
//! All failures are values handed back to the caller; a refused operation
//! leaves the record and every balance exactly as it found them.

use vstd::prelude::*;

verus! {

/// Why an operation was refused.
#[derive(Clone, Copy, Debug, PartialEq, Eq, Structural)]
pub enum EscrowError {
    /// A creation amount was zero.
    InvalidAmount,
    /// The funding deadline was not strictly in the future at creation.
    InvalidExpiry,
    /// The record has already reached a terminal state.
    NotActive,
    /// The taker has already funded the record.
    AlreadyFunded,
    /// The taker has not funded the record yet.
    NotFunded,
    /// The caller is not the party this operation belongs to.
    Unauthorized,
    /// No taker is recorded (defensive: unreachable on a well-formed record).
    TakerNotSet,
    /// The funding deadline has not passed yet.
    NotExpired,
    /// The funding deadline has passed, so funding is refused.
    EscrowExpired,
}

impl EscrowError {
    /// A human-readable description of the error.
    pub fn message(&self) -> (m: &'static str)
        ensures
            m@ == (match self {
                EscrowError::InvalidAmount => "Invalid zero amount"@,
                EscrowError::InvalidExpiry => "Invalid expiry timestamp"@,
                EscrowError::NotActive => "Escrow is not active"@,
                EscrowError::AlreadyFunded => "Escrow is already funded"@,
                EscrowError::NotFunded => "Escrow is not funded yet"@,
                EscrowError::Unauthorized => "Only taker can call this"@,
                EscrowError::TakerNotSet => "Taker not set"@,
                EscrowError::NotExpired => "Escrow has not expired yet"@,
                EscrowError::EscrowExpired => "Escrow has expired and cannot be funded"@,
            }),
    {
        match self {
            EscrowError::InvalidAmount => "Invalid zero amount",
            EscrowError::InvalidExpiry => "Invalid expiry timestamp",
            EscrowError::NotActive => "Escrow is not active",
            EscrowError::AlreadyFunded => "Escrow is already funded",
            EscrowError::NotFunded => "Escrow is not funded yet",
            EscrowError::Unauthorized => "Only taker can call this",
            EscrowError::TakerNotSet => "Taker not set",
            EscrowError::NotExpired => "Escrow has not expired yet",
            EscrowError::EscrowExpired => "Escrow has expired and cannot be funded",
        }
    }
}

} // verus!
