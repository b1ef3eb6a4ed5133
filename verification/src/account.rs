//! Account records: one per registered tenant.

use crate::error::StorageError;
use crate::policy::id_byte_len;
use crate::policy::required_min_for_len;
use crate::policy::required_min_of;
use crate::policy::required_min_of_len;
use crate::policy::MAX_IDENTIFIER_LENGTH;
use crate::storage_management::StorageBalance;
use vstd::prelude::*;

verus! {

/// Mathematical content of one account record: what the ledger's map holds
/// under the identifier.
pub struct AccountView {
    pub balance: u128,
    pub usage: u64,
}

/// One registered tenant's record.
pub struct Account {
    /// Opaque unique key naming the tenant.
    pub identifier: String,
    /// Currency held by the ledger on the tenant's behalf; it must cover the
    /// storage cost of this record.
    pub storage_balance: u128,
    /// Byte footprint recorded when the record was created (informational).
    pub storage_usage: u64,
}

impl View for Account {
    type V = AccountView;

    open spec fn view(&self) -> AccountView {
        AccountView { balance: self.storage_balance, usage: self.storage_usage }
    }
}

impl Account {
    /// A fresh record; a missing balance means zero.
    pub fn new(identifier: &String, storage_balance: Option<u128>) -> (a: Account)
        ensures
            a.identifier@ == identifier@,
            a@.balance == (match storage_balance {
                Some(b) => b,
                None => 0u128,
            }),
            a@.usage == 0,
    {
        let balance: u128 = match storage_balance {
            Some(b) => b,
            None => 0,
        };
        Account { identifier: identifier.clone(), storage_balance: balance, storage_usage: 0 }
    }

    /// Minimum balance required to keep a record registered under
    /// `identifier`. With no identifier given it prices the longest
    /// identifier the protocol permits, as a conservative upper bound for
    /// the global bounds query.
    pub fn required_deposit(identifier: Option<&String>) -> (r: u128)
        requires
            identifier matches Some(id) ==> id_byte_len(id@) <= usize::MAX,
        ensures
            r == (match identifier {
                Some(id) => required_min_of(id@),
                None => required_min_of_len(MAX_IDENTIFIER_LENGTH as nat),
            }),
    {
        match identifier {
            Some(id) => {
                let len: usize = id.as_str().len();
                required_min_for_len(len as u64)
            },
            None => required_min_for_len(MAX_IDENTIFIER_LENGTH),
        }
    }

    /// The record's balance view: the total held, and the part above the
    /// required minimum that may be withdrawn. Computed by checked
    /// subtraction: a total below the minimum is an internal-consistency
    /// failure, not a user error.
    pub fn storage_balance(&self) -> (r: Result<StorageBalance, StorageError>)
        requires
            id_byte_len(self.identifier@) <= usize::MAX,
        ensures
            self@.balance >= required_min_of(self.identifier@) ==> r == Ok::<
                StorageBalance,
                StorageError,
            >(
                (StorageBalance {
                    total: self@.balance,
                    available: (self@.balance - required_min_of(self.identifier@)) as u128,
                }),
            ),
            self@.balance < required_min_of(self.identifier@) ==> r == Err::<
                StorageBalance,
                StorageError,
            >(StorageError::InvariantViolation),
    {
        let min = Account::required_deposit(Some(&self.identifier));
        if self.storage_balance >= min {
            Ok(StorageBalance { total: self.storage_balance, available: self.storage_balance - min })
        } else {
            Err(StorageError::InvariantViolation)
        }
    }
}

} // verus!
