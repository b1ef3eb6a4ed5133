//! Failure cases of the accounting engine.
//!
//! Every error is call-fatal: an operation that returns an error leaves the
//! service exactly as it found it, and the caller must resubmit with
//! corrected input.

use vstd::prelude::*;

verus! {

/// Why an accounting operation was refused.
#[derive(Clone, Copy, Debug, PartialEq, Eq, Structural)]
pub enum StorageError {
    /// A deposit call attached no funds at all (validation).
    InvalidDeposit,
    /// A guarded call did not attach exactly the one-unit confirmation token
    /// that proves explicit intent (validation).
    MissingConfirmation,
    /// The operation targeted an identifier that is not registered (not found).
    NotFound,
    /// The accounting subsystem is paused; mutating calls are rejected (state).
    Paused,
    /// The usage tracker was already mid-measurement when a call began; its
    /// state must never span more than one call (state).
    TrackerInUse,
    /// The usage tracker was asked to finish a measurement it never started
    /// (state).
    TrackerIdle,
    /// A checked balance or byte-usage computation left the representable
    /// range (arithmetic).
    Overflow,
    /// A registration-only deposit attached less than the required minimum
    /// balance for the identifier (validation).
    InsufficientDeposit,
    /// A withdrawal asked for more than the account's total balance
    /// (arithmetic).
    InsufficientBalance,
    /// A balance view would put the available amount below zero: the prepaid
    /// balance sits under the required minimum. Internal-consistency failure,
    /// not a user error (arithmetic).
    InvariantViolation,
    /// Unregistering an account that still holds funds needs `force` (policy).
    PolicyViolation,
    /// An administrative call came from an identity other than the owner
    /// (authorization).
    Unauthorized,
}

} // verus!
