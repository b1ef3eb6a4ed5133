//! Storage-rent accounting for a multi-tenant persistent key-value store.
//!
//! Each tenant ("account") prepays a balance that must cover the cost of the
//! storage its own record occupies. The library meters the byte footprint of
//! a record, translates it into a minimum required balance, and implements
//! deposit, withdrawal and unregistration with exact refund semantics.
//!
//! The library is pure: it never talks to the host. Callers hand it the call
//! context (caller identity, attached deposit) as plain values, and each
//! mutating operation returns the amount that must be transferred back to the
//! caller, so that an outer shell can perform the actual payment.

use vstd::prelude::*;

mod account;
mod contract;
mod error;
mod laws;
mod ledger;
mod policy;
mod storage_management;
mod storage_tracker;

pub use account::Account;
pub use account::AccountView;
pub use contract::Contract;
pub use contract::RunningState;
pub use error::StorageError;
pub use laws::all_solvent;
pub use laws::lemma_deposit_overflow_guard;
pub use laws::lemma_deposit_preserves_solvency;
pub use laws::lemma_deposit_withdraw_round_trip;
pub use laws::lemma_explicit_withdraw;
pub use laws::lemma_registration_only_deposit;
pub use laws::lemma_unregister_preserves_solvency;
pub use laws::lemma_withdraw_preserves_solvency;
pub use ledger::AccountLedger;
pub use ledger::LedgerView;
pub use policy::footprint_checked;
pub use policy::footprint_of;
pub use policy::footprint_of_len;
pub use policy::id_byte_len;
pub use policy::lemma_required_min_fits;
pub use policy::required_min_for_len;
pub use policy::required_min_of;
pub use policy::required_min_of_len;
pub use policy::MAX_IDENTIFIER_LENGTH;
pub use policy::PRICE_PER_BYTE;
pub use policy::RECORD_OVERHEAD;
pub use storage_management::deposit_target;
pub use storage_management::flag_or_false;
pub use storage_management::spec_deposit;
pub use storage_management::spec_unregister;
pub use storage_management::spec_withdraw;
pub use storage_management::CallContext;
pub use storage_management::DepositOutcome;
pub use storage_management::StorageBalance;
pub use storage_management::StorageBalanceBounds;
pub use storage_management::UnregisterOutcome;
pub use storage_management::WithdrawOutcome;
pub use storage_tracker::StorageUsageTrackerData;

verus! {

} // verus!
