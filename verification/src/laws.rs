//! Laws the accounting service obeys, stated and proved over the
//! specification-level transition functions that the executable operations
//! are bound to.

use crate::account::AccountView;
use crate::error::StorageError;
use crate::ledger::LedgerView;
use crate::policy::footprint_of;
use crate::policy::required_min_of;
use crate::storage_management::spec_deposit;
use crate::storage_management::spec_unregister;
use crate::storage_management::spec_withdraw;
use crate::storage_management::DepositOutcome;
use vstd::prelude::*;

verus! {

/// Every registered account can pay for its own record: its balance covers
/// the required minimum for its identifier, so its available balance is
/// never negative.
pub open spec fn all_solvent(accounts: Map<Seq<char>, AccountView>) -> bool {
    forall|k: Seq<char>|
        accounts.contains_key(k) ==> accounts[k].balance >= required_min_of(k)
}

/// After any successful deposit every registered account stays solvent, and
/// the outcome satisfies the balance equation: the target's recorded total
/// is the returned total, and the available part is exactly the total minus
/// the required minimum for the identifier.
pub proof fn lemma_deposit_preserves_solvency(
    lg: LedgerView,
    key: Seq<char>,
    amount: u128,
    registration_only: bool,
    running: bool,
    tracking: bool,
)
    requires
        all_solvent(lg.accounts),
    ensures
        ({
            let (lg2, res) = spec_deposit(lg, key, amount, registration_only, running, tracking);
            all_solvent(lg2.accounts) && (res matches Ok(out) ==> lg2.accounts.contains_key(key)
                && lg2.accounts[key].balance == out.balance.total && out.balance.available
                == out.balance.total - required_min_of(key))
        }),
{
    let (lg2, res) = spec_deposit(lg, key, amount, registration_only, running, tracking);
    if res is Ok {
        assert forall|k: Seq<char>| lg2.accounts.contains_key(k) implies lg2.accounts[k].balance
            >= required_min_of(k) by {
            if k != key {
                assert(lg.accounts.contains_key(k) && lg2.accounts[k] == lg.accounts[k]);
            }
        }
    }
}

/// After any successful withdrawal every registered account stays solvent,
/// and the outcome satisfies the same balance equation as a deposit.
pub proof fn lemma_withdraw_preserves_solvency(
    lg: LedgerView,
    key: Seq<char>,
    attached: u128,
    amount: Option<u128>,
    running: bool,
)
    requires
        all_solvent(lg.accounts),
    ensures
        ({
            let (lg2, res) = spec_withdraw(lg, key, attached, amount, running);
            all_solvent(lg2.accounts) && (res matches Ok(out) ==> lg2.accounts.contains_key(key)
                && lg2.accounts[key].balance == out.balance.total && out.balance.available
                == out.balance.total - required_min_of(key))
        }),
{
    let (lg2, res) = spec_withdraw(lg, key, attached, amount, running);
    if res is Ok {
        assert forall|k: Seq<char>| lg2.accounts.contains_key(k) implies lg2.accounts[k].balance
            >= required_min_of(k) by {
            if k != key {
                assert(lg.accounts.contains_key(k) && lg2.accounts[k] == lg.accounts[k]);
            }
        }
    }
}

/// Unregistration only ever removes a record, so solvency of the remaining
/// accounts is untouched.
pub proof fn lemma_unregister_preserves_solvency(
    lg: LedgerView,
    key: Seq<char>,
    attached: u128,
    force: bool,
    running: bool,
)
    requires
        all_solvent(lg.accounts),
    ensures
        ({
            let (lg2, res) = spec_unregister(lg, key, attached, force, running);
            all_solvent(lg2.accounts)
        }),
{
}

/// Round trip: a fresh registration depositing `x`, followed by withdrawing
/// the whole reported available balance, leaves exactly the required
/// minimum as the total and nothing available.
pub proof fn lemma_deposit_withdraw_round_trip(lg: LedgerView, key: Seq<char>, x: u128)
    requires
        !lg.accounts.contains_key(key),
        ({
            let (lg1, r1) = spec_deposit(lg, key, x, false, true, false);
            r1 is Ok
        }),
    ensures
        ({
            let (lg1, r1) = spec_deposit(lg, key, x, false, true, false);
            match r1 {
                Ok(out1) => {
                    let (lg2, r2) = spec_withdraw(lg1, key, 1, Some(out1.balance.available), true);
                    match r2 {
                        Ok(out2) => out2.balance.total == required_min_of(key)
                            && out2.balance.available == 0 && lg2.accounts[key].balance
                            == required_min_of(key),
                        Err(_) => false,
                    }
                },
                Err(_) => false,
            }
        }),
{
}

/// A registration-only deposit for a fresh identifier that attaches at
/// least the required minimum registers the account with exactly that
/// minimum as its balance, reports nothing available, and owes the whole
/// excess back to the caller. It needs the store's 64-bit byte counter to
/// have room for the new record.
pub proof fn lemma_registration_only_deposit(lg: LedgerView, key: Seq<char>, amount: u128)
    requires
        !lg.accounts.contains_key(key),
        amount >= required_min_of(key),
        amount > 0,
        lg.usage + footprint_of(key) <= u64::MAX,
    ensures
        ({
            let (lg2, res) = spec_deposit(lg, key, amount, true, true, false);
            match res {
                Ok(out) => out.balance.total == required_min_of(key) && out.balance.available == 0
                    && out.refund == amount - required_min_of(key) && lg2.accounts.contains_key(key)
                    && lg2.accounts[key].balance == required_min_of(key),
                Err(_) => false,
            }
        }),
{
}

/// An explicit withdrawal that leaves at least the required minimum behind
/// succeeds, pays out exactly the requested amount, and reports the new
/// total and what of it stays available.
pub proof fn lemma_explicit_withdraw(lg: LedgerView, key: Seq<char>, amount: u128)
    requires
        lg.accounts.contains_key(key),
        lg.accounts[key].balance - amount >= required_min_of(key),
    ensures
        ({
            let (lg2, res) = spec_withdraw(lg, key, 1, Some(amount), true);
            match res {
                Ok(out) => out.payout == amount && out.balance.total == lg.accounts[key].balance
                    - amount && out.balance.available == out.balance.total - required_min_of(key)
                    && lg2.accounts[key].balance == out.balance.total,
                Err(_) => false,
            }
        }),
{
}

/// Overflow guard: a deposit that would push the target's total past the
/// largest representable amount fails with an overflow error and leaves the
/// ledger exactly as it was.
pub proof fn lemma_deposit_overflow_guard(lg: LedgerView, key: Seq<char>, amount: u128)
    requires
        lg.accounts.contains_key(key),
        lg.accounts[key].balance + amount > u128::MAX,
        amount > 0,
    ensures
        spec_deposit(lg, key, amount, false, true, false) == (
            lg,
            Err::<DepositOutcome, StorageError>(StorageError::Overflow),
        ),
{
}

} // verus!
