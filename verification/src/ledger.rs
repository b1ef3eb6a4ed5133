//! The account ledger: the identifier-to-record mapping the service owns.
//!
//! The ledger also carries the backing store's running byte counter, so that
//! the usage tracker can meter the footprint delta of one mutation exactly
//! as the host store reports it: creation grows the counter by the record's
//! footprint, removal shrinks it again (never below zero).

use crate::account::Account;
use crate::account::AccountView;
use crate::policy::footprint_checked;
use crate::policy::footprint_of;
use crate::policy::id_byte_len;
use vstd::pervasive::unreached;
use vstd::prelude::*;

verus! {

/// Mathematical content of the ledger: the records keyed by identifier, and
/// the store's byte counter.
pub struct LedgerView {
    pub accounts: Map<Seq<char>, AccountView>,
    pub usage: u64,
}

/// The identifier-to-record mapping, plus the byte counter of the backing
/// store.
pub struct AccountLedger {
    entries: Vec<Account>,
    usage: u64,
}

/// The records of `entries`, keyed by identifier.
spec fn map_of(entries: Seq<Account>) -> Map<Seq<char>, AccountView>
    decreases entries.len(),
{
    if entries.len() == 0 {
        Map::empty()
    } else {
        map_of(entries.drop_last()).insert(entries.last().identifier@, entries.last()@)
    }
}

/// No two entries share an identifier.
spec fn unique_ids(entries: Seq<Account>) -> bool {
    forall|i: int, j: int|
        0 <= i < j < entries.len() ==> entries[i].identifier@ != entries[j].identifier@
}

impl View for AccountLedger {
    type V = LedgerView;

    closed spec fn view(&self) -> LedgerView {
        LedgerView { accounts: map_of(self.entries@), usage: self.usage }
    }
}

proof fn lemma_map_of_contains(s: Seq<Account>, k: Seq<char>)
    ensures
        map_of(s).contains_key(k) <==> (exists|i: int|
            0 <= i < s.len() && s[i].identifier@ == k),
    decreases s.len(),
{
    if s.len() > 0 {
        let pre = s.drop_last();
        lemma_map_of_contains(pre, k);
        if s.last().identifier@ == k {
            assert(s[s.len() - 1].identifier@ == k);
        } else {
            if map_of(s).contains_key(k) {
                let i = choose|i: int| 0 <= i < pre.len() && pre[i].identifier@ == k;
                assert(s[i].identifier@ == k);
            }
            if exists|i: int| 0 <= i < s.len() && s[i].identifier@ == k {
                let i = choose|i: int| 0 <= i < s.len() && s[i].identifier@ == k;
                assert(pre[i].identifier@ == k);
            }
        }
    }
}

proof fn lemma_map_of_index(s: Seq<Account>, i: int)
    requires
        unique_ids(s),
        0 <= i < s.len(),
    ensures
        map_of(s).contains_key(s[i].identifier@),
        map_of(s)[s[i].identifier@] == s[i]@,
    decreases s.len(),
{
    if i < s.len() - 1 {
        lemma_map_of_index(s.drop_last(), i);
    }
}

proof fn lemma_map_of_push(s: Seq<Account>, a: Account)
    requires
        unique_ids(s),
        !map_of(s).contains_key(a.identifier@),
    ensures
        unique_ids(s.push(a)),
        map_of(s.push(a)) == map_of(s).insert(a.identifier@, a@),
{
    lemma_map_of_contains(s, a.identifier@);
    let t = s.push(a);
    assert(t.drop_last() =~= s);
    assert(t.last() == a);
    assert forall|i: int, j: int|
        0 <= i < j < t.len() implies t[i].identifier@ != t[j].identifier@ by {
        if j == s.len() {
            assert(t[i] == s[i]);
        } else {
            assert(t[i] == s[i] && t[j] == s[j]);
        }
    }
}

proof fn lemma_map_of_remove(s: Seq<Account>, i: int)
    requires
        unique_ids(s),
        0 <= i < s.len(),
    ensures
        unique_ids(s.remove(i)),
        map_of(s.remove(i)) == map_of(s).remove(s[i].identifier@),
    decreases s.len(),
{
    let t = s.remove(i);
    let k = s[i].identifier@;
    assert forall|x: int, y: int|
        0 <= x < y < t.len() implies t[x].identifier@ != t[y].identifier@ by {
        let sx: int = if x < i {
            x
        } else {
            x + 1
        };
        let sy: int = if y < i {
            y
        } else {
            y + 1
        };
        assert(t[x].identifier@ == s[sx].identifier@ && t[y].identifier@ == s[sy].identifier@);
    }
    if i == s.len() - 1 {
        let pre = s.drop_last();
        assert(t =~= pre);
        lemma_map_of_contains(pre, k);
        assert(!map_of(pre).contains_key(k));
        assert(map_of(pre).insert(k, s.last()@).remove(k) =~= map_of(pre));
    } else {
        let pre = s.drop_last();
        lemma_map_of_remove(pre, i);
        assert(t.drop_last() =~= pre.remove(i));
        assert(t.last() == s.last());
        let lk = s.last().identifier@;
        assert(s[i].identifier@ != s[s.len() - 1].identifier@);
        assert(map_of(pre).remove(k).insert(lk, s.last()@) =~= map_of(pre).insert(
            lk,
            s.last()@,
        ).remove(k));
    }
}

impl AccountLedger {
    /// The ledger keeps one record per identifier.
    pub closed spec fn wf(&self) -> bool {
        unique_ids(self.entries@)
    }

    /// An empty ledger over a fresh store.
    pub fn new() -> (l: AccountLedger)
        ensures
            l.wf(),
            l@.accounts == Map::<Seq<char>, AccountView>::empty(),
            l@.usage == 0,
    {
        AccountLedger { entries: Vec::new(), usage: 0 }
    }

    /// Position of the record keyed by `identifier`, if any.
    fn index_of(&self, identifier: &String) -> (r: Option<usize>)
        ensures
            r matches Some(i) ==> i < self.entries@.len() && self.entries@[i as int].identifier@
                == identifier@,
            r is None ==> !self@.accounts.contains_key(identifier@),
    {
        let mut i: usize = 0;
        while i < self.entries.len()
            invariant
                i <= self.entries@.len(),
                forall|j: int| 0 <= j < i ==> self.entries@[j].identifier@ != identifier@,
            decreases self.entries@.len() - i,
        {
            if self.entries[i].identifier == *identifier {
                return Some(i);
            }
            i += 1;
        }
        proof {
            lemma_map_of_contains(self.entries@, identifier@);
        }
        None
    }

    /// Whether a record is registered under `identifier`.
    pub fn contains(&self, identifier: &String) -> (r: bool)
        ensures
            r == self@.accounts.contains_key(identifier@),
    {
        proof {
            lemma_map_of_contains(self.entries@, identifier@);
        }
        match self.index_of(identifier) {
            Some(_) => true,
            None => false,
        }
    }

    /// The record registered under `identifier`, if any.
    pub fn get(&self, identifier: &String) -> (r: Option<&Account>)
        requires
            self.wf(),
        ensures
            r matches Some(a) ==> self@.accounts.contains_key(identifier@) && a@
                == self@.accounts[identifier@] && a.identifier@ == identifier@,
            r is None ==> !self@.accounts.contains_key(identifier@),
    {
        match self.index_of(identifier) {
            Some(i) => {
                proof {
                    lemma_map_of_index(self.entries@, i as int);
                }
                Some(&self.entries[i])
            },
            None => None,
        }
    }

    /// The store's current byte counter.
    pub fn storage_usage(&self) -> (r: u64)
        ensures
            r == self@.usage,
    {
        self.usage
    }

    /// Registers a fresh record; the store's counter grows by the record's
    /// footprint.
    pub fn insert(&mut self, account: Account)
        requires
            old(self).wf(),
            !old(self)@.accounts.contains_key(account.identifier@),
            old(self)@.usage + footprint_of(account.identifier@) <= u64::MAX,
            id_byte_len(account.identifier@) <= usize::MAX,
        ensures
            final(self).wf(),
            final(self)@.accounts == old(self)@.accounts.insert(account.identifier@, account@),
            final(self)@.usage == old(self)@.usage + footprint_of(account.identifier@),
    {
        let fp: u64 = match footprint_checked(&account.identifier) {
            Some(f) => f,
            None => unreached(),
        };
        self.usage = self.usage + fp;
        proof {
            lemma_map_of_push(self.entries@, account);
        }
        self.entries.push(account);
    }

    /// Removes the record keyed by `identifier`; the store's counter gives
    /// the record's footprint back, never dropping below zero.
    pub fn remove(&mut self, identifier: &String) -> (r: Option<Account>)
        requires
            old(self).wf(),
            id_byte_len(identifier@) <= usize::MAX,
        ensures
            final(self).wf(),
            r is None ==> !old(self)@.accounts.contains_key(identifier@) && *final(self) == *old(
                self,
            ),
            r matches Some(a) ==> old(self)@.accounts.contains_key(identifier@) && a@ == old(
                self,
            )@.accounts[identifier@] && a.identifier@ == identifier@ && final(self)@.accounts
                == old(self)@.accounts.remove(identifier@) && final(self)@.usage == (
            if footprint_of(identifier@) <= old(self)@.usage {
                old(self)@.usage - footprint_of(identifier@)
            } else {
                0
            }),
    {
        match self.index_of(identifier) {
            None => None,
            Some(i) => {
                proof {
                    lemma_map_of_index(self.entries@, i as int);
                    lemma_map_of_remove(self.entries@, i as int);
                }
                let a = self.entries.remove(i);
                self.usage = match footprint_checked(identifier) {
                    Some(f) => if self.usage >= f {
                        self.usage - f
                    } else {
                        0
                    },
                    None => 0,
                };
                Some(a)
            },
        }
    }

    /// Overwrites the balance of the record keyed by `identifier`.
    pub fn set_balance(&mut self, identifier: &String, new_balance: u128)
        requires
            old(self).wf(),
            old(self)@.accounts.contains_key(identifier@),
        ensures
            final(self).wf(),
            final(self)@.accounts == old(self)@.accounts.insert(
                identifier@,
                (AccountView {
                    balance: new_balance,
                    usage: old(self)@.accounts[identifier@].usage,
                }),
            ),
            final(self)@.usage == old(self)@.usage,
    {
        let ghost pre = self.entries@;
        match self.index_of(identifier) {
            None => unreached(),
            Some(i) => {
                proof {
                    lemma_map_of_index(pre, i as int);
                    lemma_map_of_remove(pre, i as int);
                }
                let mut a = self.entries.remove(i);
                a.storage_balance = new_balance;
                proof {
                    lemma_map_of_push(self.entries@, a);
                    assert(map_of(pre).remove(identifier@).insert(identifier@, a@) =~= map_of(
                        pre,
                    ).insert(identifier@, a@));
                }
                self.entries.push(a);
            },
        }
    }

    /// Overwrites the recorded byte footprint of the record keyed by
    /// `identifier`.
    pub fn set_usage(&mut self, identifier: &String, new_usage: u64)
        requires
            old(self).wf(),
            old(self)@.accounts.contains_key(identifier@),
        ensures
            final(self).wf(),
            final(self)@.accounts == old(self)@.accounts.insert(
                identifier@,
                (AccountView {
                    balance: old(self)@.accounts[identifier@].balance,
                    usage: new_usage,
                }),
            ),
            final(self)@.usage == old(self)@.usage,
    {
        let ghost pre = self.entries@;
        match self.index_of(identifier) {
            None => unreached(),
            Some(i) => {
                proof {
                    lemma_map_of_index(pre, i as int);
                    lemma_map_of_remove(pre, i as int);
                }
                let mut a = self.entries.remove(i);
                a.storage_usage = new_usage;
                proof {
                    lemma_map_of_push(self.entries@, a);
                    assert(map_of(pre).remove(identifier@).insert(identifier@, a@) =~= map_of(
                        pre,
                    ).insert(identifier@, a@));
                }
                self.entries.push(a);
            },
        }
    }
}

} // verus!
