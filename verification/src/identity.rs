//! Party identities.

use vstd::prelude::*;

verus! {

/// The identity of a party: a 256-bit public key held as four 64-bit words,
/// compared only for equality. The hosting environment proves that a caller
/// controls the identity it presents; the state machine takes that identity
/// as a value.
#[derive(Clone, Copy, Debug, PartialEq, Eq, Structural)]
pub struct Identity {
    pub w0: u64,
    pub w1: u64,
    pub w2: u64,
    pub w3: u64,
}

} // verus!
