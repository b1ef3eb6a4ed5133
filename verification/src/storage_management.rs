//! The service surface: deposit, withdrawal, unregistration and queries.
//!
//! Each operation's behaviour is pinned down by a specification-level
//! transition function over the ledger's mathematical view: the executable
//! method promises to agree with it exactly, on every input. The transition
//! functions spell out the decision tables, whose branch ordering is
//! semantically load-bearing.

use crate::account::Account;
use crate::account::AccountView;
use crate::contract::Contract;
use crate::error::StorageError;
use crate::ledger::LedgerView;
use crate::policy::footprint_checked;
use crate::policy::footprint_of;
use crate::policy::id_byte_len;
use crate::policy::required_min_of;
use crate::policy::required_min_of_len;
use crate::policy::MAX_IDENTIFIER_LENGTH;
use vstd::pervasive::unreached;
use vstd::prelude::*;

verus! {

/// A registered account's balance as callers see it.
#[derive(Clone, Copy, Debug, PartialEq, Eq, Structural)]
pub struct StorageBalance {
    /// Everything the ledger holds for the account.
    pub total: u128,
    /// The part of `total` above the required minimum, free to withdraw.
    pub available: u128,
}

/// The protocol-wide bounds on what a registration can cost.
#[derive(Clone, Copy, Debug)]
pub struct StorageBalanceBounds {
    /// Deposit that is certain to cover any registration.
    pub min: u128,
    /// Largest meaningful deposit; `None` means unbounded.
    pub max: Option<u128>,
}

/// What a deposit call settled on: the new balance view, and the amount the
/// service owes back to the caller.
#[derive(Clone, Copy, Debug, PartialEq, Eq, Structural)]
pub struct DepositOutcome {
    pub balance: StorageBalance,
    /// Amount to transfer back to the caller; zero means nothing is owed.
    pub refund: u128,
}

/// What a withdrawal settled on: the new balance view, and the amount paid
/// out to the caller.
#[derive(Clone, Copy, Debug, PartialEq, Eq, Structural)]
pub struct WithdrawOutcome {
    pub balance: StorageBalance,
    /// Amount to transfer to the caller.
    pub payout: u128,
}

/// What an unregistration settled on.
#[derive(Clone, Copy, Debug, PartialEq, Eq, Structural)]
pub struct UnregisterOutcome {
    /// Whether an account was actually removed.
    pub removed: bool,
    /// The removed account's entire balance, owed to the caller.
    pub payout: u128,
}

/// The host-provided context of one call: who calls, and what currency the
/// call attached.
pub struct CallContext {
    /// Identity the host authenticated as the caller.
    pub predecessor_id: String,
    /// Currency attached to the call.
    pub attached_deposit: u128,
}

/// An absent flag means `false`.
pub open spec fn flag_or_false(flag: Option<bool>) -> bool {
    match flag {
        Some(b) => b,
        None => false,
    }
}

/// The identifier a deposit targets: the named account, or the caller.
pub open spec fn deposit_target(ctx: &CallContext, account_id: Option<String>) -> Seq<char> {
    match account_id {
        Some(a) => a@,
        None => ctx.predecessor_id@,
    }
}

/// The deposit decision table over the ledger's view: the ledger afterwards,
/// and the outcome. The four cases over (registered, registration-only) are
/// evaluated in priority order; an error leaves the ledger untouched.
pub open spec fn spec_deposit(
    lg: LedgerView,
    key: Seq<char>,
    amount: u128,
    registration_only: bool,
    running: bool,
    tracking: bool,
) -> (LedgerView, Result<DepositOutcome, StorageError>) {
    let min = required_min_of(key);
    let fp = footprint_of(key);
    if !running {
        (lg, Err(StorageError::Paused))
    } else if tracking {
        (lg, Err(StorageError::TrackerInUse))
    } else if amount == 0 {
        (lg, Err(StorageError::InvalidDeposit))
    } else if lg.accounts.contains_key(key) {
        let acct = lg.accounts[key];
        if registration_only {
            // A no-op registration request on a registered account refunds
            // the whole attachment and touches nothing.
            if acct.balance < min {
                (lg, Err(StorageError::InvariantViolation))
            } else {
                (
                    lg,
                    Ok(
                        DepositOutcome {
                            balance: StorageBalance {
                                total: acct.balance,
                                available: (acct.balance - min) as u128,
                            },
                            refund: amount,
                        },
                    ),
                )
            }
        } else {
            // Top-up of an existing account.
            if acct.balance + amount > u128::MAX {
                (lg, Err(StorageError::Overflow))
            } else {
                let nb = (acct.balance + amount) as u128;
                if nb < min {
                    (lg, Err(StorageError::InvariantViolation))
                } else {
                    (
                        LedgerView {
                            accounts: lg.accounts.insert(
                                key,
                                AccountView { balance: nb, usage: acct.usage },
                            ),
                            usage: lg.usage,
                        },
                        Ok(
                            DepositOutcome {
                                balance: StorageBalance {
                                    total: nb,
                                    available: (nb - min) as u128,
                                },
                                refund: 0,
                            },
                        ),
                    )
                }
            }
        }
    } else if registration_only {
        // Fresh registration keeping only the minimum; the excess goes back.
        if amount < min {
            (lg, Err(StorageError::InsufficientDeposit))
        } else if lg.usage + fp > u64::MAX {
            (lg, Err(StorageError::Overflow))
        } else {
            (
                LedgerView {
                    accounts: lg.accounts.insert(
                        key,
                        AccountView { balance: min as u128, usage: fp as u64 },
                    ),
                    usage: (lg.usage + fp) as u64,
                },
                Ok(
                    DepositOutcome {
                        balance: StorageBalance { total: min as u128, available: 0 },
                        refund: (amount - min) as u128,
                    },
                ),
            )
        }
    } else {
        // Fresh registration keeping the whole attachment.
        if amount < min {
            (lg, Err(StorageError::InvariantViolation))
        } else if lg.usage + fp > u64::MAX {
            (lg, Err(StorageError::Overflow))
        } else {
            (
                LedgerView {
                    accounts: lg.accounts.insert(
                        key,
                        AccountView { balance: amount, usage: fp as u64 },
                    ),
                    usage: (lg.usage + fp) as u64,
                },
                Ok(
                    DepositOutcome {
                        balance: StorageBalance {
                            total: amount,
                            available: (amount - min) as u128,
                        },
                        refund: 0,
                    },
                ),
            )
        }
    }
}

/// The withdrawal decision over the ledger's view. The requested amount
/// defaults to the whole available balance; an explicit amount is checked
/// against the total, so one that lands between available and total fails
/// only when the final view is computed.
pub open spec fn spec_withdraw(
    lg: LedgerView,
    key: Seq<char>,
    attached: u128,
    amount: Option<u128>,
    running: bool,
) -> (LedgerView, Result<WithdrawOutcome, StorageError>) {
    let min = required_min_of(key);
    if attached != 1 {
        (lg, Err(StorageError::MissingConfirmation))
    } else if !running {
        (lg, Err(StorageError::Paused))
    } else if !lg.accounts.contains_key(key) {
        (lg, Err(StorageError::NotFound))
    } else {
        let acct = lg.accounts[key];
        if amount is None && acct.balance < min {
            (lg, Err(StorageError::InvariantViolation))
        } else {
            let requested = match amount {
                Some(a) => a as int,
                None => acct.balance - min,
            };
            if requested > acct.balance {
                (lg, Err(StorageError::InsufficientBalance))
            } else {
                let nb = (acct.balance - requested) as u128;
                if nb < min {
                    (lg, Err(StorageError::InvariantViolation))
                } else {
                    (
                        LedgerView {
                            accounts: lg.accounts.insert(
                                key,
                                AccountView { balance: nb, usage: acct.usage },
                            ),
                            usage: lg.usage,
                        },
                        Ok(
                            WithdrawOutcome {
                                balance: StorageBalance {
                                    total: nb,
                                    available: (nb - min) as u128,
                                },
                                payout: requested as u128,
                            },
                        ),
                    )
                }
            }
        }
    }
}

/// The unregistration decision over the ledger's view. Unregistering an
/// unknown identifier is an expected no-op, not an error; a positive balance
/// needs `force`, and the whole balance goes back to the caller.
pub open spec fn spec_unregister(
    lg: LedgerView,
    key: Seq<char>,
    attached: u128,
    force: bool,
    running: bool,
) -> (LedgerView, Result<UnregisterOutcome, StorageError>) {
    if attached != 1 {
        (lg, Err(StorageError::MissingConfirmation))
    } else if !running {
        (lg, Err(StorageError::Paused))
    } else if !lg.accounts.contains_key(key) {
        (lg, Ok(UnregisterOutcome { removed: false, payout: 0 }))
    } else {
        let acct = lg.accounts[key];
        if acct.balance > 0 && !force {
            (lg, Err(StorageError::PolicyViolation))
        } else {
            let fp = footprint_of(key);
            (
                LedgerView {
                    accounts: lg.accounts.remove(key),
                    usage: (if fp <= lg.usage {
                        (lg.usage - fp) as u64
                    } else {
                        0u64
                    }),
                },
                Ok(UnregisterOutcome { removed: true, payout: acct.balance }),
            )
        }
    }
}

impl Contract {
    /// Deposits `ctx.attached_deposit` for the target account, registering
    /// it first if needed. On success the outcome carries the new balance
    /// view and the amount owed back to the caller; on failure the service
    /// is exactly as it was.
    pub fn storage_deposit(
        &mut self,
        ctx: &CallContext,
        account_id: Option<String>,
        registration_only: Option<bool>,
    ) -> (r: Result<DepositOutcome, StorageError>)
        requires
            old(self).wf(),
            id_byte_len(ctx.predecessor_id@) <= usize::MAX,
            account_id matches Some(a) ==> id_byte_len(a@) <= usize::MAX,
        ensures
            final(self).wf(),
            ({
                let (lg2, res) = spec_deposit(
                    old(self).accounts@,
                    deposit_target(ctx, account_id),
                    ctx.attached_deposit,
                    flag_or_false(registration_only),
                    old(self).spec_running(),
                    old(self).tracking_in_progress(),
                );
                final(self).accounts@ == lg2 && r == res
            }),
            final(self).spec_owner() == old(self).spec_owner(),
            final(self).spec_running() == old(self).spec_running(),
            r is Err ==> *final(self) == *old(self),
            r is Ok ==> !final(self).tracking_in_progress(),
    {
        let registration_only: bool = match registration_only {
            Some(b) => b,
            None => false,
        };
        let target: String = match account_id {
            Some(a) => a,
            None => ctx.predecessor_id.clone(),
        };
        let ghost key = target@;
        let ghost lg0 = self.accounts@;
        if !self.is_running() {
            return Err(StorageError::Paused);
        }
        if self.tracker.tracking() {
            return Err(StorageError::TrackerInUse);
        }
        if ctx.attached_deposit == 0 {
            return Err(StorageError::InvalidDeposit);
        }
        let min: u128 = Account::required_deposit(Some(&target));
        let existing: Option<u128> = match self.accounts.get(&target) {
            Some(a) => Some(a.storage_balance),
            None => None,
        };
        match existing {
            Some(balance) => {
                if registration_only {
                    if balance < min {
                        return Err(StorageError::InvariantViolation);
                    }
                    Ok(
                        DepositOutcome {
                            balance: StorageBalance { total: balance, available: balance - min },
                            refund: ctx.attached_deposit,
                        },
                    )
                } else {
                    if ctx.attached_deposit > u128::MAX - balance {
                        return Err(StorageError::Overflow);
                    }
                    let nb: u128 = balance + ctx.attached_deposit;
                    if nb < min {
                        return Err(StorageError::InvariantViolation);
                    }
                    self.accounts.set_balance(&target, nb);
                    Ok(
                        DepositOutcome {
                            balance: StorageBalance { total: nb, available: nb - min },
                            refund: 0,
                        },
                    )
                }
            },
            None => {
                if registration_only {
                    if ctx.attached_deposit < min {
                        return Err(StorageError::InsufficientDeposit);
                    }
                } else {
                    if ctx.attached_deposit < min {
                        return Err(StorageError::InvariantViolation);
                    }
                }
                let fp: u64 = match footprint_checked(&target) {
                    Some(f) => f,
                    None => {
                        return Err(StorageError::Overflow);
                    },
                };
                let usage_now: u64 = self.accounts.storage_usage();
                if fp > u64::MAX - usage_now {
                    return Err(StorageError::Overflow);
                }
                let balance0: u128 = if registration_only {
                    min
                } else {
                    ctx.attached_deposit
                };
                match self.tracker.track(usage_now) {
                    Ok(u) => u,
                    Err(_) => unreached(),
                };
                let account = Account::new(&target, Some(balance0));
                self.accounts.insert(account);
                let measured: u64 = match self.tracker.finish(0, self.accounts.storage_usage()) {
                    Ok(v) => v,
                    Err(_) => unreached(),
                };
                self.accounts.set_usage(&target, measured);
                proof {
                    assert(lg0.accounts.insert(key, AccountView { balance: balance0, usage: 0 })
                        .insert(key, AccountView { balance: balance0, usage: fp })
                        =~= lg0.accounts.insert(
                        key,
                        AccountView { balance: balance0, usage: fp },
                    ));
                }
                if registration_only {
                    Ok(
                        DepositOutcome {
                            balance: StorageBalance { total: min, available: 0 },
                            refund: ctx.attached_deposit - min,
                        },
                    )
                } else {
                    Ok(
                        DepositOutcome {
                            balance: StorageBalance {
                                total: ctx.attached_deposit,
                                available: ctx.attached_deposit - min,
                            },
                            refund: 0,
                        },
                    )
                }
            },
        }
    }

    /// Withdraws from the caller's account: the requested amount, or the
    /// whole available balance when none is given. The call must attach
    /// exactly one currency unit as the confirmation token; the outcome
    /// carries the amount to pay out to the caller.
    pub fn storage_withdraw(&mut self, ctx: &CallContext, amount: Option<u128>) -> (r: Result<
        WithdrawOutcome,
        StorageError,
    >)
        requires
            old(self).wf(),
            id_byte_len(ctx.predecessor_id@) <= usize::MAX,
        ensures
            final(self).wf(),
            ({
                let (lg2, res) = spec_withdraw(
                    old(self).accounts@,
                    ctx.predecessor_id@,
                    ctx.attached_deposit,
                    amount,
                    old(self).spec_running(),
                );
                final(self).accounts@ == lg2 && r == res
            }),
            final(self).spec_owner() == old(self).spec_owner(),
            final(self).spec_running() == old(self).spec_running(),
            final(self).tracking_in_progress() == old(self).tracking_in_progress(),
            r is Err ==> *final(self) == *old(self),
    {
        if ctx.attached_deposit != 1 {
            return Err(StorageError::MissingConfirmation);
        }
        if !self.is_running() {
            return Err(StorageError::Paused);
        }
        let min: u128 = Account::required_deposit(Some(&ctx.predecessor_id));
        let balance: u128 = match self.accounts.get(&ctx.predecessor_id) {
            Some(a) => a.storage_balance,
            None => {
                return Err(StorageError::NotFound);
            },
        };
        let requested: u128 = match amount {
            Some(a) => a,
            None => {
                if balance < min {
                    return Err(StorageError::InvariantViolation);
                }
                balance - min
            },
        };
        if requested > balance {
            return Err(StorageError::InsufficientBalance);
        }
        let nb: u128 = balance - requested;
        if nb < min {
            return Err(StorageError::InvariantViolation);
        }
        self.accounts.set_balance(&ctx.predecessor_id, nb);
        Ok(
            WithdrawOutcome {
                balance: StorageBalance { total: nb, available: nb - min },
                payout: requested,
            },
        )
    }

    /// Removes the caller's account and pays its whole balance back. An
    /// unregistered caller gets `false`, not an error; a positive balance
    /// needs `force`. The call must attach the one-unit confirmation token.
    pub fn storage_unregister(&mut self, ctx: &CallContext, force: Option<bool>) -> (r: Result<
        UnregisterOutcome,
        StorageError,
    >)
        requires
            old(self).wf(),
            id_byte_len(ctx.predecessor_id@) <= usize::MAX,
        ensures
            final(self).wf(),
            ({
                let (lg2, res) = spec_unregister(
                    old(self).accounts@,
                    ctx.predecessor_id@,
                    ctx.attached_deposit,
                    flag_or_false(force),
                    old(self).spec_running(),
                );
                final(self).accounts@ == lg2 && r == res
            }),
            final(self).spec_owner() == old(self).spec_owner(),
            final(self).spec_running() == old(self).spec_running(),
            final(self).tracking_in_progress() == old(self).tracking_in_progress(),
            r is Err ==> *final(self) == *old(self),
    {
        if ctx.attached_deposit != 1 {
            return Err(StorageError::MissingConfirmation);
        }
        if !self.is_running() {
            return Err(StorageError::Paused);
        }
        let force: bool = match force {
            Some(b) => b,
            None => false,
        };
        let balance: u128 = match self.accounts.get(&ctx.predecessor_id) {
            Some(a) => a.storage_balance,
            None => {
                return Ok(UnregisterOutcome { removed: false, payout: 0 });
            },
        };
        if balance > 0 && !force {
            return Err(StorageError::PolicyViolation);
        }
        match self.accounts.remove(&ctx.predecessor_id) {
            Some(a) => a,
            None => unreached(),
        };
        Ok(UnregisterOutcome { removed: true, payout: balance })
    }

    /// The protocol-wide registration cost bounds: the minimum prices the
    /// longest permitted identifier; there is no upper bound.
    pub fn storage_balance_bounds(&self) -> (r: StorageBalanceBounds)
        ensures
            r.min == required_min_of_len(MAX_IDENTIFIER_LENGTH as nat),
            r.max is None,
    {
        StorageBalanceBounds { min: Account::required_deposit(None), max: None }
    }

    /// The balance view of the account registered under `account_id`, or
    /// `None` for an unregistered identifier. Read-only, always permitted.
    pub fn storage_balance_of(&self, account_id: &String) -> (r: Option<StorageBalance>)
        requires
            self.wf(),
            id_byte_len(account_id@) <= usize::MAX,
            self.accounts@.accounts.contains_key(account_id@)
                ==> self.accounts@.accounts[account_id@].balance >= required_min_of(account_id@),
        ensures
            r is Some <==> self.accounts@.accounts.contains_key(account_id@),
            r matches Some(b) ==> ({
                let acct = self.accounts@.accounts[account_id@];
                b.total == acct.balance && b.available == acct.balance - required_min_of(
                    account_id@,
                )
            }),
    {
        match self.accounts.get(account_id) {
            Some(a) => match a.storage_balance() {
                Ok(b) => Some(b),
                Err(_) => unreached(),
            },
            None => None,
        }
    }
}

} // verus!
