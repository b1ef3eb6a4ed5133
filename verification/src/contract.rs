//! The accounting service: ownership, lifecycle gate, and account access.

use crate::account::Account;
use crate::error::StorageError;
use crate::ledger::AccountLedger;
use crate::policy::footprint_of;
use crate::policy::id_byte_len;
use crate::storage_tracker::StorageUsageTrackerData;
use vstd::prelude::*;

verus! {

/// Coarse circuit breaker: mutating operations run only while `Running`.
#[derive(Clone, Copy, Debug, PartialEq, Eq, Structural)]
pub enum RunningState {
    Running,
    Paused,
}

/// The storage-rent accounting service. It owns the ledger exclusively; all
/// access to an account goes through lookup by identifier.
pub struct Contract {
    /// The owner's identity, the only one allowed on administrative paths.
    pub owner_id: String,
    /// The lifecycle gate.
    pub running_state: RunningState,
    /// User account records keyed by identifier.
    pub accounts: AccountLedger,
    /// The usage tracker cell; it must be idle between calls.
    pub tracker: StorageUsageTrackerData,
}

impl Contract {
    /// The owner's identity.
    pub open spec fn spec_owner(&self) -> Seq<char> {
        self.owner_id@
    }

    /// Whether mutating operations are currently admitted.
    pub open spec fn spec_running(&self) -> bool {
        self.running_state is Running
    }

    /// Whether a usage measurement is mid-flight.
    pub open spec fn tracking_in_progress(&self) -> bool {
        self.tracker.is_tracking()
    }

    /// The service is well-formed when its ledger is.
    pub open spec fn wf(&self) -> bool {
        self.accounts.wf()
    }

    /// Sets up the service with an empty ledger over a fresh store. With no
    /// explicit owner, the calling identity owns it.
    pub fn init(owner_id: Option<String>, predecessor_id: String) -> (c: Contract)
        ensures
            c.wf(),
            c.spec_owner() == (match owner_id {
                Some(o) => o@,
                None => predecessor_id@,
            }),
            c.spec_running(),
            !c.tracking_in_progress(),
            c.accounts@.accounts == Map::<Seq<char>, crate::account::AccountView>::empty(),
            c.accounts@.usage == 0,
    {
        Contract {
            owner_id: match owner_id {
                Some(o) => o,
                None => predecessor_id,
            },
            running_state: RunningState::Running,
            accounts: AccountLedger::new(),
            tracker: StorageUsageTrackerData::default(),
        }
    }

    /// Whether the subsystem currently admits mutating operations.
    pub fn is_running(&self) -> (r: bool)
        ensures
            r == self.spec_running(),
    {
        self.running_state == RunningState::Running
    }

    /// Whether `account_id` owns the service.
    pub fn is_owner(&self, account_id: &String) -> (r: bool)
        ensures
            r == (account_id@ == self.spec_owner()),
    {
        *account_id == self.owner_id
    }

    /// Administrative toggle of the lifecycle gate; owner only.
    pub fn set_running_state(&mut self, caller: &String, state: RunningState) -> (r: Result<
        (),
        StorageError,
    >)
        ensures
            caller@ != old(self).spec_owner() ==> r == Err::<(), StorageError>(
                StorageError::Unauthorized,
            ) && *final(self) == *old(self),
            caller@ == old(self).spec_owner() ==> r == Ok::<(), StorageError>(())
                && final(self).spec_running() == (state is Running),
            final(self).spec_owner() == old(self).spec_owner(),
            final(self).accounts == old(self).accounts,
            final(self).tracking_in_progress() == old(self).tracking_in_progress(),
    {
        if !self.is_owner(caller) {
            return Err(StorageError::Unauthorized);
        }
        self.running_state = state;
        Ok(())
    }

    /// The account registered under `account_id`; not finding one is an
    /// expected outcome, never an internal error.
    pub fn get_account(&self, account_id: &String) -> (r: Result<&Account, StorageError>)
        requires
            self.wf(),
        ensures
            r matches Ok(a) ==> self.accounts@.accounts.contains_key(account_id@) && a@
                == self.accounts@.accounts[account_id@] && a.identifier@ == account_id@,
            r is Err ==> r == Err::<&Account, StorageError>(StorageError::NotFound)
                && !self.accounts@.accounts.contains_key(account_id@),
    {
        match self.accounts.get(account_id) {
            Some(a) => Ok(a),
            None => Err(StorageError::NotFound),
        }
    }

    /// Removes and returns the account registered under `account_id`; the
    /// store's byte counter gives the record's footprint back.
    pub fn remove_account(&mut self, account_id: &String) -> (r: Result<Account, StorageError>)
        requires
            old(self).wf(),
            id_byte_len(account_id@) <= usize::MAX,
        ensures
            final(self).wf(),
            final(self).spec_owner() == old(self).spec_owner(),
            final(self).spec_running() == old(self).spec_running(),
            final(self).tracking_in_progress() == old(self).tracking_in_progress(),
            r is Ok <==> old(self).accounts@.accounts.contains_key(account_id@),
            r is Err ==> r == Err::<Account, StorageError>(StorageError::NotFound)
                && *final(self) == *old(self),
            r matches Ok(a) ==> old(self).accounts@.accounts.contains_key(account_id@)
                && a@ == old(self).accounts@.accounts[account_id@]
                && a.identifier@ == account_id@
                && final(self).accounts@.accounts == old(self).accounts@.accounts.remove(account_id@)
                && final(self).accounts@.usage == (
                    if footprint_of(account_id@) <= old(self).accounts@.usage {
                        old(self).accounts@.usage - footprint_of(account_id@)
                    } else {
                        0
                    }),
    {
        match self.accounts.remove(account_id) {
            Some(a) => Ok(a),
            None => Err(StorageError::NotFound),
        }
    }
}

} // verus!
