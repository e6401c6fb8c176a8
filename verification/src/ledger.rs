//! The balance table: account identifiers mapped to unsigned 128-bit
//! balances.
//!
//! An account that holds no entry has balance zero; holding an entry with
//! value zero means the same. The table exposes a point lookup and a point
//! update, and its specification tracks, beside each balance, the sum of all
//! entries, so that the ledger on top of it can keep its total supply equal
//! to that sum.

use vstd::prelude::*;

verus! {

/// The balance a sequence of `(account, amount)` entries assigns to
/// `account`: the value of the first entry whose key matches, or 0 if none
/// does.
pub open spec fn entries_balance(s: Seq<(String, u128)>, account: Seq<char>) -> u128
    decreases s.len(),
{
    if s.len() == 0 {
        0u128
    } else if s[0].0@ == account {
        s[0].1
    } else {
        entries_balance(s.drop_first(), account)
    }
}

/// The sum of all amounts in a sequence of `(account, amount)` entries.
pub open spec fn entries_sum(s: Seq<(String, u128)>) -> int
    decreases s.len(),
{
    if s.len() == 0 {
        0
    } else {
        s[0].1 + entries_sum(s.drop_first())
    }
}

/// Whether some entry carries `account` as its key.
pub open spec fn entries_has_key(s: Seq<(String, u128)>, account: Seq<char>) -> bool {
    exists|i: int| 0 <= i < s.len() && s[i].0@ == account
}

proof fn lemma_entries_sum_nonneg(s: Seq<(String, u128)>)
    ensures
        entries_sum(s) >= 0,
    decreases s.len(),
{
    if s.len() > 0 {
        lemma_entries_sum_nonneg(s.drop_first());
    }
}

proof fn lemma_entries_balance_le_sum(s: Seq<(String, u128)>, account: Seq<char>)
    ensures
        entries_balance(s, account) <= entries_sum(s),
    decreases s.len(),
{
    if s.len() == 0 {
    } else if s[0].0@ == account {
        lemma_entries_sum_nonneg(s.drop_first());
    } else {
        lemma_entries_balance_le_sum(s.drop_first(), account);
    }
}

proof fn lemma_entries_two_balances_le_sum(
    s: Seq<(String, u128)>,
    a: Seq<char>,
    b: Seq<char>,
)
    requires
        a != b,
    ensures
        entries_balance(s, a) + entries_balance(s, b) <= entries_sum(s),
    decreases s.len(),
{
    if s.len() == 0 {
    } else if s[0].0@ == a {
        lemma_entries_balance_le_sum(s.drop_first(), b);
    } else if s[0].0@ == b {
        lemma_entries_balance_le_sum(s.drop_first(), a);
    } else {
        lemma_entries_two_balances_le_sum(s.drop_first(), a, b);
    }
}

proof fn lemma_entries_balance_first_match(s: Seq<(String, u128)>, i: int)
    requires
        0 <= i < s.len(),
        forall|j: int| 0 <= j < i ==> s[j].0@ != s[i].0@,
    ensures
        entries_balance(s, s[i].0@) == s[i].1,
    decreases i,
{
    if i > 0 {
        lemma_entries_balance_first_match(s.drop_first(), i - 1);
    }
}

proof fn lemma_entries_balance_absent(s: Seq<(String, u128)>, account: Seq<char>)
    requires
        !entries_has_key(s, account),
    ensures
        entries_balance(s, account) == 0,
    decreases s.len(),
{
    if s.len() > 0 {
        assert(s[0].0@ != account);
        assert(forall|j: int|
            0 <= j < s.drop_first().len() ==> s.drop_first()[j] == s[j + 1]);
        lemma_entries_balance_absent(s.drop_first(), account);
    }
}

proof fn lemma_entries_sum_update(s: Seq<(String, u128)>, i: int, p: (String, u128))
    requires
        0 <= i < s.len(),
    ensures
        entries_sum(s.update(i, p)) == entries_sum(s) - s[i].1 + p.1,
    decreases s.len(),
{
    if i == 0 {
        assert(s.update(0, p).drop_first() =~= s.drop_first());
    } else {
        assert(s.update(i, p).drop_first() =~= s.drop_first().update(i - 1, p));
        lemma_entries_sum_update(s.drop_first(), i - 1, p);
    }
}

proof fn lemma_entries_balance_update_match(s: Seq<(String, u128)>, i: int, p: (String, u128))
    requires
        0 <= i < s.len(),
        s[i].0@ == p.0@,
        forall|j: int| 0 <= j < i ==> s[j].0@ != p.0@,
    ensures
        entries_balance(s.update(i, p), p.0@) == p.1,
    decreases i,
{
    if i == 0 {
        assert(s.update(0, p)[0] == p);
    } else {
        assert(s.update(i, p).drop_first() =~= s.drop_first().update(i - 1, p));
        lemma_entries_balance_update_match(s.drop_first(), i - 1, p);
    }
}

proof fn lemma_entries_balance_update_other(
    s: Seq<(String, u128)>,
    i: int,
    p: (String, u128),
    b: Seq<char>,
)
    requires
        0 <= i < s.len(),
        s[i].0@ == p.0@,
        b != p.0@,
    ensures
        entries_balance(s.update(i, p), b) == entries_balance(s, b),
    decreases s.len(),
{
    if i == 0 {
        assert(s.update(0, p).drop_first() =~= s.drop_first());
    } else {
        assert(s.update(i, p).drop_first() =~= s.drop_first().update(i - 1, p));
        if s[0].0@ != b {
            lemma_entries_balance_update_other(s.drop_first(), i - 1, p, b);
        }
    }
}

proof fn lemma_entries_sum_push(s: Seq<(String, u128)>, p: (String, u128))
    ensures
        entries_sum(s.push(p)) == entries_sum(s) + p.1,
    decreases s.len(),
{
    if s.len() == 0 {
        assert(s.push(p)[0] == p);
        assert(s.push(p).drop_first() =~= Seq::<(String, u128)>::empty());
        assert(entries_sum(Seq::<(String, u128)>::empty()) == 0);
    } else {
        assert(s.push(p)[0] == s[0]);
        assert(s.push(p).drop_first() =~= s.drop_first().push(p));
        lemma_entries_sum_push(s.drop_first(), p);
    }
}

proof fn lemma_entries_balance_push_match(s: Seq<(String, u128)>, p: (String, u128))
    requires
        !entries_has_key(s, p.0@),
    ensures
        entries_balance(s.push(p), p.0@) == p.1,
    decreases s.len(),
{
    if s.len() == 0 {
        assert(s.push(p)[0] == p);
    } else {
        assert(s[0].0@ != p.0@);
        assert(s.push(p).drop_first() =~= s.drop_first().push(p));
        assert(forall|j: int|
            0 <= j < s.drop_first().len() ==> s.drop_first()[j] == s[j + 1]);
        lemma_entries_balance_push_match(s.drop_first(), p);
    }
}

proof fn lemma_entries_balance_push_other(
    s: Seq<(String, u128)>,
    p: (String, u128),
    b: Seq<char>,
)
    requires
        b != p.0@,
    ensures
        entries_balance(s.push(p), b) == entries_balance(s, b),
    decreases s.len(),
{
    if s.len() == 0 {
        assert(s.push(p)[0] == p);
        assert(s.push(p).drop_first() =~= Seq::<(String, u128)>::empty());
        assert(entries_balance(Seq::<(String, u128)>::empty(), b) == 0);
    } else {
        assert(s.push(p)[0] == s[0]);
        assert(s.push(p).drop_first() =~= s.drop_first().push(p));
        if s[0].0@ != b {
            lemma_entries_balance_push_other(s.drop_first(), p, b);
        }
    }
}

/// Account balances, stored as a list of `(account, amount)` entries with at
/// most one entry consulted per account (lookups take the first match).
pub struct BalanceTable {
    entries: Vec<(String, u128)>,
}

impl BalanceTable {
    /// The balance of `account`: 0 if no entry exists for it.
    pub closed spec fn balance(self, account: Seq<char>) -> u128 {
        entries_balance(self.entries@, account)
    }

    /// The sum of all stored balances.
    pub closed spec fn total(self) -> int {
        entries_sum(self.entries@)
    }

    /// An empty table: every account has balance 0.
    pub fn new() -> (r: Self)
        ensures
            r.total() == 0,
            forall|a: Seq<char>| r.balance(a) == 0,
    {
        BalanceTable { entries: Vec::new() }
    }

    /// The index of the first entry for `account_id`, if one exists.
    fn find_index(&self, account_id: &String) -> (r: Option<usize>)
        ensures
            match r {
                Some(i) => {
                    &&& i < self.entries@.len()
                    &&& self.entries@[i as int].0@ == account_id@
                    &&& forall|j: int| 0 <= j < i ==> self.entries@[j].0@ != account_id@
                },
                None => !entries_has_key(self.entries@, account_id@),
            },
    {
        let n: usize = self.entries.len();
        let mut i: usize = 0;
        while i < n
            invariant
                0 <= i <= n == self.entries@.len(),
                forall|j: int| 0 <= j < i ==> self.entries@[j].0@ != account_id@,
            decreases n - i,
        {
            if self.entries[i].0 == *account_id {
                return Some(i);
            }
            i = i + 1;
        }
        None
    }

    /// Read the balance of `account_id`; 0 if no entry exists.
    pub fn get(&self, account_id: &String) -> (r: u128)
        ensures
            r == self.balance(account_id@),
    {
        match self.find_index(account_id) {
            Some(i) => {
                proof {
                    lemma_entries_balance_first_match(self.entries@, i as int);
                }
                self.entries[i].1
            },
            None => {
                proof {
                    lemma_entries_balance_absent(self.entries@, account_id@);
                }
                0
            },
        }
    }

    /// Write the balance of `account_id`, leaving every other account alone.
    pub fn set(&mut self, account_id: &String, value: u128)
        ensures
            final(self).balance(account_id@) == value,
            forall|b: Seq<char>|
                b != account_id@ ==> final(self).balance(b) == old(self).balance(b),
            final(self).total() == old(self).total() - old(self).balance(account_id@)
                + value,
    {
        let ghost s = self.entries@;
        let pair = (account_id.clone(), value);
        match self.find_index(account_id) {
            Some(i) => {
                proof {
                    lemma_entries_balance_first_match(s, i as int);
                    lemma_entries_sum_update(s, i as int, pair);
                    lemma_entries_balance_update_match(s, i as int, pair);
                    assert forall|b: Seq<char>| b != account_id@ implies entries_balance(
                        s.update(i as int, pair),
                        b,
                    ) == entries_balance(s, b) by {
                        lemma_entries_balance_update_other(s, i as int, pair, b);
                    };
                }
                self.entries[i] = pair;
            },
            None => {
                proof {
                    lemma_entries_balance_absent(s, account_id@);
                    lemma_entries_sum_push(s, pair);
                    lemma_entries_balance_push_match(s, pair);
                    assert forall|b: Seq<char>| b != account_id@ implies entries_balance(
                        s.push(pair),
                        b,
                    ) == entries_balance(s, b) by {
                        lemma_entries_balance_push_other(s, pair, b);
                    };
                }
                self.entries.push(pair);
            },
        }
    }

    /// No single balance exceeds the sum of all balances.
    pub proof fn lemma_balance_le_total(self, account: Seq<char>)
        ensures
            self.balance(account) <= self.total(),
    {
        lemma_entries_balance_le_sum(self.entries@, account);
    }

    /// The balances of two distinct accounts together never exceed the sum
    /// of all balances.
    pub proof fn lemma_two_balances_le_total(self, a: Seq<char>, b: Seq<char>)
        requires
            a != b,
        ensures
            self.balance(a) + self.balance(b) <= self.total(),
    {
        lemma_entries_two_balances_le_sum(self.entries@, a, b);
    }
}

} // verus!
