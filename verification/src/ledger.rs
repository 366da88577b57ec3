//! The balance ledger: a mapping from account identifiers to unsigned
//! 128-bit balances, together with the total supply.
//!
//! The well-formedness invariant ties the stored total to the sum of all
//! entries, so conservation of supply holds at every observable point; the
//! only operations that change the total are `deposit` and `withdraw`, and
//! every caller of the pair either balances them (a transfer) or accounts
//! for the difference (a mint or a burn).

use vstd::prelude::*;

use crate::errors::TokenError;

verus! {

/// One ledger entry: an account identifier and the balance it holds.
#[derive(Clone, Copy, Debug, PartialEq, Eq, Structural)]
pub struct AccountEntry {
    pub id: u64,
    pub balance: u128,
}

/// The sum of the balances of a sequence of entries.
pub open spec fn sum_balances(s: Seq<AccountEntry>) -> int
    decreases s.len(),
{
    if s.len() == 0 {
        0
    } else {
        sum_balances(s.drop_last()) + s.last().balance
    }
}

pub proof fn lemma_sum_nonneg(s: Seq<AccountEntry>)
    ensures
        sum_balances(s) >= 0,
    decreases s.len(),
{
    if s.len() > 0 {
        lemma_sum_nonneg(s.drop_last());
    }
}

/// Every entry's balance is bounded by the sum of all balances.
pub proof fn lemma_sum_entry_bound(s: Seq<AccountEntry>, i: int)
    requires
        0 <= i < s.len(),
    ensures
        s[i].balance <= sum_balances(s),
    decreases s.len(),
{
    if i == s.len() - 1 {
        lemma_sum_nonneg(s.drop_last());
    } else {
        lemma_sum_entry_bound(s.drop_last(), i);
    }
}

pub proof fn lemma_sum_update(s: Seq<AccountEntry>, i: int, e: AccountEntry)
    requires
        0 <= i < s.len(),
    ensures
        sum_balances(s.update(i, e)) == sum_balances(s) - s[i].balance + e.balance,
    decreases s.len(),
{
    let t = s.update(i, e);
    if i == s.len() - 1 {
        assert(t.drop_last() =~= s.drop_last());
    } else {
        lemma_sum_update(s.drop_last(), i, e);
        assert(t.drop_last() =~= s.drop_last().update(i, e));
        assert(t.last() == s.last());
    }
}

pub proof fn lemma_sum_push(s: Seq<AccountEntry>, e: AccountEntry)
    ensures
        sum_balances(s.push(e)) == sum_balances(s) + e.balance,
{
    assert(s.push(e).drop_last() =~= s);
    assert(s.push(e).last() == e);
}

pub proof fn lemma_sum_remove(s: Seq<AccountEntry>, i: int)
    requires
        0 <= i < s.len(),
    ensures
        sum_balances(s.remove(i)) == sum_balances(s) - s[i].balance,
    decreases s.len(),
{
    if i == s.len() - 1 {
        assert(s.remove(i) =~= s.drop_last());
    } else {
        lemma_sum_remove(s.drop_last(), i);
        assert(s.remove(i).drop_last() =~= s.drop_last().remove(i));
        assert(s.remove(i).last() == s.last());
    }
}

/// The authoritative mapping of accounts to balances.
pub struct Ledger {
    pub entries: Vec<AccountEntry>,
    pub total: u128,
}

impl Ledger {
    /// No account identifier appears in two entries.
    pub open spec fn distinct(self) -> bool {
        forall|i: int, j: int|
            0 <= i < j < self.entries@.len() ==> #[trigger] self.entries@[i].id
                != #[trigger] self.entries@[j].id
    }

    /// Well-formed: accounts are unique and the stored total equals the sum
    /// of all entries.
    pub open spec fn wf(self) -> bool {
        &&& self.distinct()
        &&& self.total as int == sum_balances(self.entries@)
    }

    /// Whether the account holds a ledger entry.
    pub open spec fn spec_registered(self, account: u64) -> bool {
        exists|i: int|
            0 <= i < self.entries@.len() && #[trigger] self.entries@[i].id == account
    }

    /// The position of the account's entry (meaningful only when registered
    /// and distinct).
    pub open spec fn index_of(self, account: u64) -> int {
        choose|i: int|
            0 <= i < self.entries@.len() && #[trigger] self.entries@[i].id == account
    }

    /// The balance of an account; zero for accounts with no entry.
    pub open spec fn spec_balance_of(self, account: u64) -> u128 {
        if self.spec_registered(account) {
            self.entries@[self.index_of(account)].balance
        } else {
            0
        }
    }

    /// An empty ledger: no accounts, zero supply.
    pub fn new() -> (l: Ledger)
        ensures
            l.wf(),
            l.total == 0,
            forall|x: u64| !(#[trigger] l.spec_registered(x)),
            l.entries@.len() == 0,
    {
        Ledger { entries: Vec::new(), total: 0 }
    }

    /// The position of the account's entry, if any; on `None` no entry
    /// carries this account.
    pub fn find_index(&self, account: u64) -> (r: Option<usize>)
        ensures
            match r {
                Some(i) => i < self.entries@.len() && self.entries@[i as int].id == account,
                None => forall|j: int|
                    0 <= j < self.entries@.len() ==> #[trigger] self.entries@[j].id != account,
            },
    {
        let n = self.entries.len();
        let mut k: usize = 0;
        while k < n
            invariant
                n == self.entries@.len(),
                k <= n,
                forall|j: int| 0 <= j < k ==> #[trigger] self.entries@[j].id != account,
            decreases n - k,
        {
            if self.entries[k].id == account {
                return Some(k);
            }
            k += 1;
        }
        None
    }

    /// Whether the account holds a ledger entry.
    pub fn is_registered(&self, account: u64) -> (r: bool)
        ensures
            r == self.spec_registered(account),
    {
        match self.find_index(account) {
            Some(_) => true,
            None => false,
        }
    }

    /// The balance of an account; zero for unregistered accounts, never an
    /// error.
    pub fn balance_of(&self, account: u64) -> (r: u128)
        requires
            self.wf(),
        ensures
            r == self.spec_balance_of(account),
    {
        match self.find_index(account) {
            Some(i) => {
                proof {
                    lemma_ledger_index(*self, account, i as int);
                }
                self.entries[i].balance
            },
            None => 0,
        }
    }

    /// The total supply, equal to the sum of all entries on a well-formed
    /// ledger.
    pub fn total_supply(&self) -> (r: u128)
        ensures
            r == self.total,
    {
        self.total
    }

    /// Creates a zero-balance entry for the account; rejected when one is
    /// already present.
    pub fn register(&mut self, account: u64) -> (r: Result<(), TokenError>)
        requires
            old(self).wf(),
        ensures
            match r {
                Ok(()) => {
                    &&& !old(self).spec_registered(account)
                    &&& final(self).wf()
                    &&& forall|x: u64| #[trigger] final(self).spec_registered(x) == (x == account
                        || old(self).spec_registered(x))
                    &&& forall|x: u64| #[trigger] final(self).spec_balance_of(x) == old(
                        self,
                    ).spec_balance_of(x)
                    &&& final(self).total == old(self).total
                },
                Err(e) => {
                    &&& *final(self) == *old(self)
                    &&& e == TokenError::AlreadyRegistered
                    &&& old(self).spec_registered(account)
                },
            },
    {
        match self.find_index(account) {
            Some(_) => Err(TokenError::AlreadyRegistered),
            None => {
                let ghost pre = *self;
                self.entries.push(AccountEntry { id: account, balance: 0 });
                proof {
                    lemma_push_observations(pre, *self, account, 0);
                }
                Ok(())
            },
        }
    }

    /// Removes the account's entry; only a zero-balance entry may go.
    pub fn unregister(&mut self, account: u64) -> (r: Result<(), TokenError>)
        requires
            old(self).wf(),
        ensures
            match r {
                Ok(()) => {
                    &&& old(self).spec_registered(account)
                    &&& old(self).spec_balance_of(account) == 0
                    &&& final(self).wf()
                    &&& forall|x: u64| #[trigger] final(self).spec_registered(x) == (old(
                        self,
                    ).spec_registered(x) && x != account)
                    &&& forall|x: u64| #[trigger] final(self).spec_balance_of(x) == old(
                        self,
                    ).spec_balance_of(x)
                    &&& final(self).total == old(self).total
                },
                Err(e) => {
                    &&& *final(self) == *old(self)
                    &&& if !old(self).spec_registered(account) {
                        e == TokenError::NotRegistered
                    } else {
                        e == TokenError::BalanceNonZero && old(self).spec_balance_of(account) != 0
                    }
                },
            },
    {
        match self.find_index(account) {
            None => Err(TokenError::NotRegistered),
            Some(i) => {
                proof {
                    lemma_ledger_index(*self, account, i as int);
                }
                if self.entries[i].balance != 0 {
                    return Err(TokenError::BalanceNonZero);
                }
                let ghost pre = *self;
                self.entries.remove(i);
                proof {
                    lemma_remove_observations(pre, *self, i as int);
                }
                Ok(())
            },
        }
    }

    /// Adds `amount` to the account's balance and to the total supply;
    /// rejected for unregistered accounts and when the supply would pass the
    /// largest representable value.
    pub fn deposit(&mut self, account: u64, amount: u128) -> (r: Result<(), TokenError>)
        requires
            old(self).wf(),
        ensures
            match r {
                Ok(()) => {
                    &&& old(self).spec_registered(account)
                    &&& old(self).total + amount <= u128::MAX
                    &&& final(self).wf()
                    &&& forall|x: u64| #[trigger] final(self).spec_registered(x) == old(
                        self,
                    ).spec_registered(x)
                    &&& final(self).spec_balance_of(account) == old(self).spec_balance_of(account)
                        + amount
                    &&& forall|x: u64|
                        x != account ==> #[trigger] final(self).spec_balance_of(x) == old(
                            self,
                        ).spec_balance_of(x)
                    &&& final(self).total == old(self).total + amount
                },
                Err(e) => {
                    &&& *final(self) == *old(self)
                    &&& if !old(self).spec_registered(account) {
                        e == TokenError::NotRegistered
                    } else {
                        e == TokenError::Overflow && old(self).total + amount > u128::MAX
                    }
                },
            },
    {
        match self.find_index(account) {
            None => Err(TokenError::NotRegistered),
            Some(i) => {
                proof {
                    lemma_ledger_index(*self, account, i as int);
                }
                if amount > u128::MAX - self.total {
                    return Err(TokenError::Overflow);
                }
                proof {
                    lemma_sum_entry_bound(self.entries@, i as int);
                }
                let ghost pre = *self;
                let nb = self.entries[i].balance + amount;
                self.entries[i] = AccountEntry { id: account, balance: nb };
                self.total = self.total + amount;
                proof {
                    lemma_update_observations(pre, *self, i as int, nb);
                }
                Ok(())
            },
        }
    }

    /// Subtracts `amount` from the account's balance and from the total
    /// supply; rejected when the balance is too small.
    pub fn withdraw(&mut self, account: u64, amount: u128) -> (r: Result<(), TokenError>)
        requires
            old(self).wf(),
        ensures
            match r {
                Ok(()) => {
                    &&& amount <= old(self).spec_balance_of(account)
                    &&& final(self).wf()
                    &&& forall|x: u64| #[trigger] final(self).spec_registered(x) == old(
                        self,
                    ).spec_registered(x)
                    &&& final(self).spec_balance_of(account) == old(self).spec_balance_of(account)
                        - amount
                    &&& forall|x: u64|
                        x != account ==> #[trigger] final(self).spec_balance_of(x) == old(
                            self,
                        ).spec_balance_of(x)
                    &&& final(self).total == old(self).total - amount
                },
                Err(e) => {
                    &&& *final(self) == *old(self)
                    &&& e == TokenError::InsufficientBalance
                    &&& amount > old(self).spec_balance_of(account)
                },
            },
    {
        match self.find_index(account) {
            None => {
                if amount == 0 {
                    Ok(())
                } else {
                    Err(TokenError::InsufficientBalance)
                }
            },
            Some(i) => {
                proof {
                    lemma_ledger_index(*self, account, i as int);
                }
                if amount > self.entries[i].balance {
                    return Err(TokenError::InsufficientBalance);
                }
                proof {
                    lemma_sum_entry_bound(self.entries@, i as int);
                }
                let ghost pre = *self;
                let nb = self.entries[i].balance - amount;
                self.entries[i] = AccountEntry { id: account, balance: nb };
                self.total = self.total - amount;
                proof {
                    lemma_update_observations(pre, *self, i as int, nb);
                }
                Ok(())
            },
        }
    }
}

/// On a ledger with unique accounts, any entry carrying the account fixes
/// `index_of`.
pub proof fn lemma_ledger_index(l: Ledger, account: u64, i: int)
    requires
        l.distinct(),
        0 <= i < l.entries@.len(),
        l.entries@[i].id == account,
    ensures
        l.spec_registered(account),
        l.index_of(account) == i,
        l.spec_balance_of(account) == l.entries@[i].balance,
{
    assert(l.spec_registered(account));
    let j = l.index_of(account);
    assert(0 <= j < l.entries@.len() && l.entries@[j].id == account);
    if i < j {
        assert(l.entries@[i].id != l.entries@[j].id);
    } else if j < i {
        assert(l.entries@[j].id != l.entries@[i].id);
    }
}

/// Replacing the balance stored at one position changes that account's
/// balance, and nothing else a caller can observe.
pub proof fn lemma_update_observations(pre: Ledger, post: Ledger, i: int, nb: u128)
    requires
        pre.distinct(),
        0 <= i < pre.entries@.len(),
        post.entries@ == pre.entries@.update(
            i,
            AccountEntry { id: pre.entries@[i].id, balance: nb },
        ),
    ensures
        post.distinct(),
        forall|x: u64| #[trigger] post.spec_registered(x) == pre.spec_registered(x),
        post.spec_balance_of(pre.entries@[i].id) == nb,
        forall|x: u64|
            x != pre.entries@[i].id ==> #[trigger] post.spec_balance_of(x)
                == pre.spec_balance_of(x),
        sum_balances(post.entries@) == sum_balances(pre.entries@) - pre.entries@[i].balance + nb,
{
    let a = pre.entries@[i].id;
    assert forall|k: int| 0 <= k < post.entries@.len() implies #[trigger] post.entries@[k].id
        == pre.entries@[k].id by {}
    assert forall|p: int, q: int|
        0 <= p < q < post.entries@.len() implies #[trigger] post.entries@[p].id
        != #[trigger] post.entries@[q].id by {
        assert(pre.entries@[p].id != pre.entries@[q].id);
    }
    assert forall|x: u64| #[trigger] post.spec_registered(x) == pre.spec_registered(x) by {
        if pre.spec_registered(x) {
            let k = pre.index_of(x);
            assert(post.entries@[k].id == x);
        }
        if post.spec_registered(x) {
            let k = post.index_of(x);
            assert(pre.entries@[k].id == x);
        }
    }
    lemma_ledger_index(post, a, i);
    assert forall|x: u64|
        x != a implies #[trigger] post.spec_balance_of(x) == pre.spec_balance_of(x) by {
        if pre.spec_registered(x) {
            let k = pre.index_of(x);
            assert(pre.entries@[k].id == x);
            assert(k != i);
            lemma_ledger_index(pre, x, k);
            lemma_ledger_index(post, x, k);
        }
    }
    lemma_sum_update(pre.entries@, i, AccountEntry { id: a, balance: nb });
}

/// Appending an entry for a fresh account registers it with the given
/// balance and leaves every other account as it was.
pub proof fn lemma_push_observations(pre: Ledger, post: Ledger, a: u64, b: u128)
    requires
        pre.distinct(),
        !pre.spec_registered(a),
        post.entries@ == pre.entries@.push(AccountEntry { id: a, balance: b }),
    ensures
        post.distinct(),
        forall|x: u64| #[trigger] post.spec_registered(x) == (x == a || pre.spec_registered(x)),
        post.spec_balance_of(a) == b,
        forall|x: u64|
            x != a ==> #[trigger] post.spec_balance_of(x) == pre.spec_balance_of(x),
        sum_balances(post.entries@) == sum_balances(pre.entries@) + b,
{
    let n = pre.entries@.len() as int;
    assert forall|p: int, q: int|
        0 <= p < q < post.entries@.len() implies #[trigger] post.entries@[p].id
        != #[trigger] post.entries@[q].id by {
        if q < n {
            assert(pre.entries@[p].id != pre.entries@[q].id);
        } else {
            assert(pre.entries@[p].id != a);
        }
    }
    assert forall|x: u64| #[trigger] post.spec_registered(x) == (x == a || pre.spec_registered(
        x,
    )) by {
        if x == a {
            assert(post.entries@[n].id == a);
        }
        if pre.spec_registered(x) {
            let k = pre.index_of(x);
            assert(post.entries@[k].id == x);
        }
        if post.spec_registered(x) && x != a {
            let k = post.index_of(x);
            assert(0 <= k < n + 1 && post.entries@[k].id == x);
            assert(k < n);
            assert(pre.entries@[k].id == x);
        }
    }
    lemma_ledger_index(post, a, n);
    assert forall|x: u64|
        x != a implies #[trigger] post.spec_balance_of(x) == pre.spec_balance_of(x) by {
        if pre.spec_registered(x) {
            let k = pre.index_of(x);
            assert(pre.entries@[k].id == x);
            lemma_ledger_index(pre, x, k);
            lemma_ledger_index(post, x, k);
        }
    }
    lemma_sum_push(pre.entries@, AccountEntry { id: a, balance: b });
}

/// Removing one entry unregisters that account and leaves every other
/// account as it was.
pub proof fn lemma_remove_observations(pre: Ledger, post: Ledger, i: int)
    requires
        pre.distinct(),
        0 <= i < pre.entries@.len(),
        post.entries@ == pre.entries@.remove(i),
    ensures
        post.distinct(),
        forall|x: u64| #[trigger] post.spec_registered(x) == (pre.spec_registered(x) && x
            != pre.entries@[i].id),
        post.spec_balance_of(pre.entries@[i].id) == 0,
        forall|x: u64|
            x != pre.entries@[i].id ==> #[trigger] post.spec_balance_of(x)
                == pre.spec_balance_of(x),
        sum_balances(post.entries@) == sum_balances(pre.entries@) - pre.entries@[i].balance,
{
    let a = pre.entries@[i].id;
    let n = pre.entries@.len() as int;
    assert forall|p: int, q: int|
        0 <= p < q < post.entries@.len() implies #[trigger] post.entries@[p].id
        != #[trigger] post.entries@[q].id by {
        let p0: int = if p < i {
            p
        } else {
            p + 1
        };
        let q0: int = if q < i {
            q
        } else {
            q + 1
        };
        assert(pre.entries@[p0].id != pre.entries@[q0].id);
    }
    assert forall|x: u64| #[trigger] post.spec_registered(x) == (pre.spec_registered(x) && x
        != a) by {
        if post.spec_registered(x) {
            let k = post.index_of(x);
            assert(0 <= k < n - 1 && post.entries@[k].id == x);
            let k0: int = if k < i {
                k
            } else {
                k + 1
            };
            assert(pre.entries@[k0].id == x);
            lemma_ledger_index(pre, x, k0);
            assert(x != a) by {
                if x == a {
                    lemma_ledger_index(pre, a, i);
                }
            }
        }
        if pre.spec_registered(x) && x != a {
            let k = pre.index_of(x);
            assert(pre.entries@[k].id == x);
            assert(k != i);
            if k < i {
                assert(post.entries@[k].id == x);
            } else {
                assert(post.entries@[k - 1].id == x);
            }
        }
    }
    assert forall|x: u64|
        x != a implies #[trigger] post.spec_balance_of(x) == pre.spec_balance_of(x) by {
        if pre.spec_registered(x) {
            let k = pre.index_of(x);
            assert(pre.entries@[k].id == x);
            lemma_ledger_index(pre, x, k);
            assert(k != i);
            if k < i {
                assert(post.entries@[k].id == x);
                lemma_ledger_index(post, x, k);
            } else {
                assert(post.entries@[k - 1].id == x);
                lemma_ledger_index(post, x, k - 1);
            }
        }
    }
    lemma_sum_remove(pre.entries@, i);
}

/// On a well-formed ledger the reported total supply is exactly the sum of
/// the stored balances, and every entry reports its own balance, so the sum
/// of all `balance_of` results over the registered accounts is the total
/// supply.
pub proof fn lemma_total_supply_is_balance_sum(l: Ledger)
    requires
        l.wf(),
    ensures
        l.total as int == sum_balances(l.entries@),
        forall|i: int|
            0 <= i < l.entries@.len() ==> #[trigger] l.spec_balance_of(l.entries@[i].id)
                == l.entries@[i].balance,
{
    assert forall|i: int|
        0 <= i < l.entries@.len() implies #[trigger] l.spec_balance_of(l.entries@[i].id)
        == l.entries@[i].balance by {
        lemma_ledger_index(l, l.entries@[i].id, i);
    }
}

} // verus!
