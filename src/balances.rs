//! A table from accounts to balances, with unique keys.
use vstd::prelude::*;

use crate::account::AccountId;

verus! {

/// Balances held by accounts, one entry per account.
pub struct Balances {
    entries: Vec<(AccountId, u32)>,
}

impl View for Balances {
    type V = Map<AccountId, u32>;

    closed spec fn view(&self) -> Map<AccountId, u32> {
        Map::new(
            |k: AccountId| exists|i: int| 0 <= i < self.entries@.len() && self.entries@[i].0 == k,
            |k: AccountId|
                self.entries@[choose|i: int| 0 <= i < self.entries@.len() && self.entries@[i].0 == k].1,
        )
    }
}

impl Balances {
    /// No account appears in two entries.
    pub closed spec fn wf(&self) -> bool {
        forall|i: int, j: int|
            0 <= i < j < self.entries@.len() ==> self.entries@[i].0 != self.entries@[j].0
    }

    proof fn lemma_entry_in_view(&self, i: int)
        requires
            self.wf(),
            0 <= i < self.entries@.len(),
        ensures
            self@.contains_key(self.entries@[i].0),
            self@[self.entries@[i].0] == self.entries@[i].1,
    {
        let k = self.entries@[i].0;
        assert(0 <= i < self.entries@.len() && self.entries@[i].0 == k);
        let c = choose|c: int| 0 <= c < self.entries@.len() && self.entries@[c].0 == k;
        assert(c == i);
    }

    /// An empty table.
    pub fn new() -> (r: Balances)
        ensures
            r.wf(),
            r@ == Map::<AccountId, u32>::empty(),
    {
        let r = Balances { entries: Vec::new() };
        assert(r@ =~= Map::<AccountId, u32>::empty());
        r
    }

    /// The index of the entry for `account`, if there is one.
    fn find(&self, account: &AccountId) -> (r: Option<usize>)
        requires
            self.wf(),
        ensures
            match r {
                Some(i) => i < self.entries@.len() && self.entries@[i as int].0 == *account,
                None => !self@.contains_key(*account),
            },
    {
        let mut i: usize = 0;
        while i < self.entries.len()
            invariant
                0 <= i <= self.entries@.len(),
                forall|j: int| 0 <= j < i ==> self.entries@[j].0 != *account,
            decreases self.entries@.len() - i,
        {
            if self.entries[i].0 == *account {
                return Some(i);
            }
            i = i + 1;
        }
        None
    }

    /// The balance of `account`, or `None` where the table has no entry for it.
    pub fn get(&self, account: &AccountId) -> (r: Option<u32>)
        requires
            self.wf(),
        ensures
            r == (if self@.contains_key(*account) {
                Some(self@[*account])
            } else {
                None::<u32>
            }),
    {
        match self.find(account) {
            Some(i) => {
                proof {
                    self.lemma_entry_in_view(i as int);
                }
                Some(self.entries[i].1)
            },
            None => None,
        }
    }

    /// Sets the balance of `account` to `value`, adding an entry where there
    /// was none; every other entry is kept.
    pub fn insert(&mut self, account: AccountId, value: u32)
        requires
            old(self).wf(),
        ensures
            final(self).wf(),
            final(self)@ == old(self)@.insert(account, value),
    {
        let ghost before = self.entries@;
        let ghost mut at: int = 0;
        match self.find(&account) {
            Some(i) => {
                self.entries.set(i, (account, value));
                proof {
                    at = i as int;
                }
            },
            None => {
                self.entries.push((account, value));
                proof {
                    at = before.len() as int;
                }
            },
        }
        let ghost after = self.entries@;
        assert forall|k: AccountId| #[trigger] self@.contains_key(k) implies old(self)@.insert(
            account,
            value,
        ).contains_key(k) by {
            let c = choose|c: int| 0 <= c < after.len() && after[c].0 == k;
            if k != account {
                assert(0 <= c < before.len() && before[c].0 == k);
            }
        }
        assert forall|k: AccountId| #[trigger] old(self)@.insert(account, value).contains_key(k)
            implies self@.contains_key(k) && self@[k] == old(self)@.insert(account, value)[k] by {
            if k == account {
                self.lemma_entry_in_view(at);
            } else {
                let c = choose|c: int| 0 <= c < before.len() && before[c].0 == k;
                old(self).lemma_entry_in_view(c);
                assert(after[c] == before[c]);
                self.lemma_entry_in_view(c);
            }
        }
        assert(self@ =~= old(self)@.insert(account, value));
    }
}

} // verus!
