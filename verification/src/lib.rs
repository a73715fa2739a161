//! A two-party conditional-swap escrow, written as a pure state machine.
//!
//! A maker locks a quantity of the native balance unit; a designated taker
//! must match it with a second quantity before a deadline; afterwards either
//! a completed swap pays both parties, or the maker reclaims the locked
//! amount. The hosting ledger is responsible for account allocation, address
//! derivation, signature checks and the actual balance moves; here every one
//! of those appears as a plain value (identities, balances, the clock
//! reading), so each operation is a verified function from the current record
//! and its caller to the next record, the balance changes, and the event it
//! emits, or to a typed error with no change at all.

pub mod errors;
pub mod events;
pub mod identity;
pub mod ops;
pub mod state;

pub use errors::EscrowError;
pub use events::EscrowCancelled;
pub use events::EscrowCompleted;
pub use events::EscrowCreated;
pub use events::EscrowFunded;
pub use events::EscrowRefunded;
pub use identity::Identity;
pub use state::EscrowAccount;
