//! The freeze registry: a per-account boolean flag, false when no flag was
//! ever set. Independent of registration; an account can be frozen whether
//! or not it holds a ledger entry.

use vstd::prelude::*;

verus! {

/// One stored flag.
#[derive(Clone, Copy, Debug, PartialEq, Eq, Structural)]
pub struct FreezeEntry {
    pub account: u64,
    pub frozen: bool,
}

/// The per-account freeze flags.
pub struct FreezeRegistry {
    pub entries: Vec<FreezeEntry>,
}

impl FreezeRegistry {
    /// No account carries two flags.
    pub open spec fn distinct(self) -> bool {
        forall|i: int, j: int|
            0 <= i < j < self.entries@.len() ==> #[trigger] self.entries@[i].account
                != #[trigger] self.entries@[j].account
    }

    pub open spec fn spec_has(self, account: u64) -> bool {
        exists|i: int|
            0 <= i < self.entries@.len() && #[trigger] self.entries@[i].account == account
    }

    pub open spec fn index_of(self, account: u64) -> int {
        choose|i: int|
            0 <= i < self.entries@.len() && #[trigger] self.entries@[i].account == account
    }

    /// The flag of an account; false when none was ever set.
    pub open spec fn spec_frozen(self, account: u64) -> bool {
        if self.spec_has(account) {
            self.entries@[self.index_of(account)].frozen
        } else {
            false
        }
    }

    /// An empty registry: nothing is frozen.
    pub fn new() -> (f: FreezeRegistry)
        ensures
            f.distinct(),
            forall|x: u64| !(#[trigger] f.spec_frozen(x)),
    {
        FreezeRegistry { entries: Vec::new() }
    }

    /// The position of the account's flag, if any.
    fn find_index(&self, account: u64) -> (r: Option<usize>)
        ensures
            match r {
                Some(i) => i < self.entries@.len() && self.entries@[i as int].account == account,
                None => forall|j: int|
                    0 <= j < self.entries@.len() ==> #[trigger] self.entries@[j].account
                        != account,
            },
    {
        let n = self.entries.len();
        let mut k: usize = 0;
        while k < n
            invariant
                n == self.entries@.len(),
                k <= n,
                forall|j: int| 0 <= j < k ==> #[trigger] self.entries@[j].account != account,
            decreases n - k,
        {
            if self.entries[k].account == account {
                return Some(k);
            }
            k += 1;
        }
        None
    }

    /// The flag of an account; false when none was ever set.
    pub fn is_frozen(&self, account: u64) -> (r: bool)
        requires
            self.distinct(),
        ensures
            r == self.spec_frozen(account),
    {
        match self.find_index(account) {
            Some(i) => {
                proof {
                    lemma_freeze_index(*self, account, i as int);
                }
                self.entries[i].frozen
            },
            None => false,
        }
    }

    /// Sets the account's flag, idempotently: setting a flag to its current
    /// value changes nothing observable.
    pub fn set(&mut self, account: u64, value: bool)
        requires
            old(self).distinct(),
        ensures
            final(self).distinct(),
            final(self).spec_frozen(account) == value,
            forall|x: u64|
                x != account ==> #[trigger] final(self).spec_frozen(x) == old(self).spec_frozen(
                    x,
                ),
    {
        let ghost pre = *self;
        match self.find_index(account) {
            Some(i) => {
                self.entries[i] = FreezeEntry { account, frozen: value };
                proof {
                    lemma_freeze_update_observations(pre, *self, i as int, value);
                }
            },
            None => {
                self.entries.push(FreezeEntry { account, frozen: value });
                proof {
                    lemma_freeze_push_observations(pre, *self, account, value);
                }
            },
        }
    }
}

/// On a registry with unique accounts, any flag carrying the account fixes
/// `index_of`.
pub proof fn lemma_freeze_index(f: FreezeRegistry, account: u64, i: int)
    requires
        f.distinct(),
        0 <= i < f.entries@.len(),
        f.entries@[i].account == account,
    ensures
        f.spec_has(account),
        f.index_of(account) == i,
        f.spec_frozen(account) == f.entries@[i].frozen,
{
    assert(f.spec_has(account));
    let j = f.index_of(account);
    assert(0 <= j < f.entries@.len() && f.entries@[j].account == account);
    if i < j {
        assert(f.entries@[i].account != f.entries@[j].account);
    } else if j < i {
        assert(f.entries@[j].account != f.entries@[i].account);
    }
}

proof fn lemma_freeze_update_observations(pre: FreezeRegistry, post: FreezeRegistry, i: int, v: bool)
    requires
        pre.distinct(),
        0 <= i < pre.entries@.len(),
        post.entries@ == pre.entries@.update(
            i,
            FreezeEntry { account: pre.entries@[i].account, frozen: v },
        ),
    ensures
        post.distinct(),
        post.spec_frozen(pre.entries@[i].account) == v,
        forall|x: u64|
            x != pre.entries@[i].account ==> #[trigger] post.spec_frozen(x) == pre.spec_frozen(x),
{
    let a = pre.entries@[i].account;
    assert forall|p: int, q: int|
        0 <= p < q < post.entries@.len() implies #[trigger] post.entries@[p].account
        != #[trigger] post.entries@[q].account by {
        assert(pre.entries@[p].account != pre.entries@[q].account);
    }
    lemma_freeze_index(post, a, i);
    assert forall|x: u64|
        x != a implies #[trigger] post.spec_frozen(x) == pre.spec_frozen(x) by {
        if pre.spec_has(x) {
            let k = pre.index_of(x);
            assert(pre.entries@[k].account == x);
            assert(k != i);
            lemma_freeze_index(pre, x, k);
            lemma_freeze_index(post, x, k);
        } else {
            if post.spec_has(x) {
                let k = post.index_of(x);
                assert(pre.entries@[k].account == x);
            }
        }
    }
}

proof fn lemma_freeze_push_observations(pre: FreezeRegistry, post: FreezeRegistry, a: u64, v: bool)
    requires
        pre.distinct(),
        !pre.spec_has(a),
        post.entries@ == pre.entries@.push(FreezeEntry { account: a, frozen: v }),
    ensures
        post.distinct(),
        post.spec_frozen(a) == v,
        forall|x: u64| x != a ==> #[trigger] post.spec_frozen(x) == pre.spec_frozen(x),
{
    let n = pre.entries@.len() as int;
    assert forall|p: int, q: int|
        0 <= p < q < post.entries@.len() implies #[trigger] post.entries@[p].account
        != #[trigger] post.entries@[q].account by {
        if q < n {
            assert(pre.entries@[p].account != pre.entries@[q].account);
        } else {
            assert(pre.entries@[p].account != a);
        }
    }
    assert(post.entries@[n].account == a);
    lemma_freeze_index(post, a, n);
    assert forall|x: u64|
        x != a implies #[trigger] post.spec_frozen(x) == pre.spec_frozen(x) by {
        if pre.spec_has(x) {
            let k = pre.index_of(x);
            assert(pre.entries@[k].account == x);
            lemma_freeze_index(pre, x, k);
            lemma_freeze_index(post, x, k);
        } else {
            if post.spec_has(x) {
                let k = post.index_of(x);
                assert(0 <= k < n + 1 && post.entries@[k].account == x);
                assert(k < n);
                assert(pre.entries@[k].account == x);
            }
        }
    }
}

} // verus!
