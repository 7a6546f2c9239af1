//! The pre-paid billing ledger: per-user compute credits that move only
//! through deposits, pre-charges and refunds, and never go negative.

use crate::error::HVMError;
use vstd::prelude::*;
use vstd::string::*;

verus! {

/// One user's credit balance.
struct Account {
    user: String,
    balance: u64,
}

/// The balance recorded for `user`, zero when no account exists yet.
pub open spec fn spec_balance_in(s: Seq<(Seq<char>, u64)>, user: Seq<char>) -> u64
    decreases s.len(),
{
    if s.len() == 0 {
        0
    } else if s[0].0 == user {
        s[0].1
    } else {
        spec_balance_in(s.drop_first(), user)
    }
}

/// The ledger of pre-paid compute credits.
pub struct BillingLedger {
    accounts: Vec<Account>,
}

impl BillingLedger {
    /// The recorded accounts as pairs of user and balance.
    pub closed spec fn spec_accounts(self) -> Seq<(Seq<char>, u64)> {
        self.accounts@.map_values(|a: Account| (a.user@, a.balance))
    }

    /// The balance of `user`; zero when the user never deposited.
    pub open spec fn spec_balance_of(self, user: Seq<char>) -> u64 {
        spec_balance_in(self.spec_accounts(), user)
    }

    /// Each user appears at most once.
    pub open spec fn wf(self) -> bool {
        forall|i: int, j: int|
            0 <= i < j < self.spec_accounts().len()
                ==> self.spec_accounts()[i].0 != self.spec_accounts()[j].0
    }

    /// An empty ledger: every balance reads zero.
    pub fn new() -> (r: BillingLedger)
        ensures
            r.wf(),
            forall|user: Seq<char>| r.spec_balance_of(user) == 0,
    {
        let r = BillingLedger { accounts: Vec::new() };
        proof {
            assert(r.spec_accounts() =~= Seq::<(Seq<char>, u64)>::empty());
        }
        r
    }

    /// The balance of `user`.
    pub fn balance_of(&self, user: &str) -> (r: u64)
        requires
            self.wf(),
        ensures
            r == self.spec_balance_of(user@),
    {
        let want: String = user.to_owned();
        let n = self.accounts.len();
        let mut i: usize = 0;
        while i < n
            invariant
                i <= n,
                n == self.accounts@.len(),
                want@ == user@,
                forall|k: int| 0 <= k < i ==> self.spec_accounts()[k].0 != user@,
            decreases n - i,
        {
            if self.accounts[i].user == want {
                proof {
                    lemma_balance_at(self.spec_accounts(), i as int, user@);
                }
                return self.accounts[i].balance;
            }
            i = i + 1;
        }
        proof {
            lemma_balance_absent(self.spec_accounts(), user@);
        }
        0
    }

    /// Finds the index of `user`'s account, if one exists.
    fn find_account(&self, user: &str) -> (r: Option<usize>)
        ensures
            r matches Some(i) ==> i < self.spec_accounts().len()
                && self.spec_accounts()[i as int].0 == user@,
            r is None ==> forall|k: int|
                0 <= k < self.spec_accounts().len() ==> self.spec_accounts()[k].0 != user@,
    {
        let want: String = user.to_owned();
        let n = self.accounts.len();
        let mut i: usize = 0;
        while i < n
            invariant
                i <= n,
                n == self.accounts@.len(),
                want@ == user@,
                forall|k: int| 0 <= k < i ==> self.spec_accounts()[k].0 != user@,
            decreases n - i,
        {
            if self.accounts[i].user == want {
                return Some(i);
            }
            i = i + 1;
        }
        None
    }

    /// Credits `amount` to `user`, creating the account on first deposit.
    /// Fails, changing nothing, exactly when the balance would overflow.
    pub fn deposit(&mut self, user: &str, amount: u64) -> (r: Result<(), HVMError>)
        requires
            old(self).wf(),
        ensures
            final(self).wf(),
            r is Ok <==> old(self).spec_balance_of(user@) + amount <= u64::MAX,
            r is Ok ==> final(self).spec_balance_of(user@)
                == old(self).spec_balance_of(user@) + amount,
            r is Ok ==> forall|u: Seq<char>| u != user@
                ==> final(self).spec_balance_of(u) == old(self).spec_balance_of(u),
            r is Err ==> *final(self) == *old(self),
    {
        match self.find_account(user) {
            Some(i) => {
                proof {
                    lemma_balance_at_of_wf(old(self).spec_accounts(), i as int, user@);
                }
                let current = self.accounts[i].balance;
                if amount > u64::MAX - current {
                    return Err(HVMError::InsufficientBalance(String::from_str("balance overflow")));
                }
                let user_key = self.accounts[i].user.clone();
                self.accounts.set(i, Account { user: user_key, balance: current + amount });
                proof {
                    lemma_balance_update(old(self).spec_accounts(), self.spec_accounts(), i as int);
                    assert(self.wf()) by {
                        lemma_wf_same_keys(old(self).spec_accounts(), self.spec_accounts());
                    }
                }
                Ok(())
            },
            None => {
                proof {
                    lemma_balance_absent(old(self).spec_accounts(), user@);
                }
                self.accounts.push(Account { user: user.to_owned(), balance: amount });
                proof {
                    assert(self.spec_accounts() =~= old(self).spec_accounts().push((user@, amount)));
                    lemma_balance_append(old(self).spec_accounts(), user@, amount);
                    assert(self.wf()) by {
                        lemma_wf_append(old(self).spec_accounts(), user@, amount);
                        assert(forall|a: int| 0 <= a < old(self).spec_accounts().len()
                            ==> self.spec_accounts()[a] == old(self).spec_accounts()[a]);
                    }
                }
                Ok(())
            },
        }
    }

    /// Charges `amount` against `user`'s balance: the whole charge or
    /// nothing. Fails with the insufficient-balance error, changing nothing,
    /// exactly when the balance is short.
    pub fn check_and_deduct(&mut self, user: &str, amount: u64) -> (r: Result<(), HVMError>)
        requires
            old(self).wf(),
        ensures
            final(self).wf(),
            r is Ok <==> amount <= old(self).spec_balance_of(user@),
            r is Ok ==> final(self).spec_balance_of(user@)
                == old(self).spec_balance_of(user@) - amount,
            r is Ok ==> forall|u: Seq<char>| u != user@
                ==> final(self).spec_balance_of(u) == old(self).spec_balance_of(u),
            r is Err ==> *final(self) == *old(self),
            r matches Err(e) ==> e matches HVMError::InsufficientBalance(_),
    {
        match self.find_account(user) {
            Some(i) => {
                proof {
                    lemma_balance_at_of_wf(old(self).spec_accounts(), i as int, user@);
                }
                let current = self.accounts[i].balance;
                if amount > current {
                    return Err(HVMError::InsufficientBalance(String::from_str("Insufficient balance")));
                }
                let user_key = self.accounts[i].user.clone();
                self.accounts.set(i, Account { user: user_key, balance: current - amount });
                proof {
                    lemma_balance_update(old(self).spec_accounts(), self.spec_accounts(), i as int);
                    assert(self.wf()) by {
                        lemma_wf_same_keys(old(self).spec_accounts(), self.spec_accounts());
                    }
                }
                Ok(())
            },
            None => {
                proof {
                    lemma_balance_absent(old(self).spec_accounts(), user@);
                }
                if amount == 0 {
                    return Ok(());
                }
                Err(HVMError::InsufficientBalance(String::from_str("Insufficient balance")))
            },
        }
    }

    /// Refunds the unused part of a pre-charge: credits back
    /// `deducted - actual` when the actual cost came in under the charge,
    /// and nothing otherwise.
    pub fn refund(&mut self, user: &str, deducted: u64, actual: u64) -> (r: Result<(), HVMError>)
        requires
            old(self).wf(),
            old(self).spec_balance_of(user@) + deducted <= u64::MAX,
        ensures
            final(self).wf(),
            r is Ok,
            actual < deducted ==> final(self).spec_balance_of(user@)
                == old(self).spec_balance_of(user@) + (deducted - actual),
            actual >= deducted ==> *final(self) == *old(self),
            forall|u: Seq<char>| u != user@
                ==> final(self).spec_balance_of(u) == old(self).spec_balance_of(u),
    {
        if actual >= deducted {
            return Ok(());
        }
        self.deposit(user, deducted - actual)
    }
}

/// The balance of a keyed ledger at a known index.
proof fn lemma_balance_at(s: Seq<(Seq<char>, u64)>, i: int, user: Seq<char>)
    requires
        0 <= i < s.len(),
        s[i].0 == user,
        forall|k: int| 0 <= k < i ==> s[k].0 != user,
    ensures
        spec_balance_in(s, user) == s[i].1,
    decreases i,
{
    if i > 0 {
        assert(forall|k: int| 0 <= k < i - 1 ==> s.drop_first()[k] == s[k + 1]);
        lemma_balance_at(s.drop_first(), i - 1, user);
    }
}

/// With unique keys, a hit at index `i` pins the balance, wherever the
/// index was found.
proof fn lemma_balance_at_of_wf(s: Seq<(Seq<char>, u64)>, i: int, user: Seq<char>)
    requires
        0 <= i < s.len(),
        s[i].0 == user,
        forall|a: int, b: int| 0 <= a < b < s.len() ==> s[a].0 != s[b].0,
    ensures
        spec_balance_in(s, user) == s[i].1,
{
    assert(forall|k: int| 0 <= k < i ==> s[k].0 != user);
    lemma_balance_at(s, i, user);
}

/// A user without an account reads zero.
proof fn lemma_balance_absent(s: Seq<(Seq<char>, u64)>, user: Seq<char>)
    requires
        forall|k: int| 0 <= k < s.len() ==> s[k].0 != user,
    ensures
        spec_balance_in(s, user) == 0,
    decreases s.len(),
{
    if s.len() > 0 {
        assert(forall|k: int| 0 <= k < s.len() - 1 ==> s.drop_first()[k] == s[k + 1]);
        lemma_balance_absent(s.drop_first(), user);
    }
}

/// Updating one account's balance in place changes only that user's
/// reading.
proof fn lemma_balance_update(s0: Seq<(Seq<char>, u64)>, s1: Seq<(Seq<char>, u64)>, i: int)
    requires
        0 <= i < s0.len(),
        s1.len() == s0.len(),
        forall|k: int| 0 <= k < s0.len() && k != i ==> s1[k] == s0[k],
        s1[i].0 == s0[i].0,
        forall|a: int, b: int| 0 <= a < b < s0.len() ==> s0[a].0 != s0[b].0,
    ensures
        spec_balance_in(s1, s1[i].0) == s1[i].1,
        forall|u: Seq<char>| u != s1[i].0
            ==> spec_balance_in(s1, u) == spec_balance_in(s0, u),
{
    assert(forall|k: int| 0 <= k < i ==> s1[k].0 != s1[i].0);
    lemma_balance_at(s1, i, s1[i].0);
    assert forall|u: Seq<char>| u != s1[i].0
        implies spec_balance_in(s1, u) == spec_balance_in(s0, u) by {
        lemma_balance_agrees(s0, s1, i, u);
    }
}

/// Point-wise agreement of readings off the updated key.
proof fn lemma_balance_agrees(s0: Seq<(Seq<char>, u64)>, s1: Seq<(Seq<char>, u64)>, i: int, u: Seq<char>)
    requires
        0 <= i < s0.len(),
        s1.len() == s0.len(),
        forall|k: int| 0 <= k < s0.len() && k != i ==> s1[k] == s0[k],
        s1[i].0 == s0[i].0,
        u != s1[i].0,
    ensures
        spec_balance_in(s1, u) == spec_balance_in(s0, u),
    decreases s0.len(),
{
    if s0.len() > 0 {
        if i == 0 {
            assert(s0.drop_first() =~= s1.drop_first());
        } else {
            assert(forall|k: int| 0 <= k < s0.len() - 1 && k != i - 1
                ==> s1.drop_first()[k] == s0.drop_first()[k]);
            lemma_balance_agrees(s0.drop_first(), s1.drop_first(), i - 1, u);
        }
    }
}

/// Appending a fresh account sets that user's reading and no other.
proof fn lemma_balance_append(s: Seq<(Seq<char>, u64)>, user: Seq<char>, amount: u64)
    requires
        forall|k: int| 0 <= k < s.len() ==> s[k].0 != user,
    ensures
        spec_balance_in(s.push((user, amount)), user) == amount,
        forall|u: Seq<char>| u != user
            ==> spec_balance_in(s.push((user, amount)), u) == spec_balance_in(s, u),
    decreases s.len(),
{
    assert(s.push((user, amount))[s.len() as int] == (user, amount));
    assert(forall|k: int| 0 <= k < s.len() ==> s.push((user, amount))[k] == s[k]);
    lemma_balance_at(s.push((user, amount)), s.len() as int, user);
    assert forall|u: Seq<char>| u != user
        implies spec_balance_in(s.push((user, amount)), u) == spec_balance_in(s, u) by {
        lemma_balance_append_off(s, user, amount, u);
    }
}

/// Point-wise agreement of readings off the appended key.
proof fn lemma_balance_append_off(s: Seq<(Seq<char>, u64)>, user: Seq<char>, amount: u64, u: Seq<char>)
    requires
        u != user,
    ensures
        spec_balance_in(s.push((user, amount)), u) == spec_balance_in(s, u),
    decreases s.len(),
{
    if s.len() == 0 {
        assert(s.push((user, amount))[0] == (user, amount));
        assert(s.push((user, amount)).drop_first() =~= Seq::<(Seq<char>, u64)>::empty());
        assert(spec_balance_in(Seq::<(Seq<char>, u64)>::empty(), u) == 0);
    } else {
        assert(s.push((user, amount))[0] == s[0]);
        assert(s.push((user, amount)).drop_first() =~= s.drop_first().push((user, amount)));
        lemma_balance_append_off(s.drop_first(), user, amount, u);
    }
}

/// Key-preserving point updates keep keys unique.
proof fn lemma_wf_same_keys(s0: Seq<(Seq<char>, u64)>, s1: Seq<(Seq<char>, u64)>)
    requires
        s1.len() == s0.len(),
        forall|k: int| 0 <= k < s0.len() ==> s1[k].0 == s0[k].0,
        forall|a: int, b: int| 0 <= a < b < s0.len() ==> s0[a].0 != s0[b].0,
    ensures
        forall|a: int, b: int| 0 <= a < b < s1.len() ==> s1[a].0 != s1[b].0,
{
}

/// Appending a fresh key keeps keys unique.
proof fn lemma_wf_append(s: Seq<(Seq<char>, u64)>, user: Seq<char>, amount: u64)
    requires
        forall|k: int| 0 <= k < s.len() ==> s[k].0 != user,
        forall|a: int, b: int| 0 <= a < b < s.len() ==> s[a].0 != s[b].0,
    ensures
        forall|a: int, b: int| 0 <= a < b < s.push((user, amount)).len()
            ==> s.push((user, amount))[a].0 != s.push((user, amount))[b].0,
{
    assert forall|a: int, b: int| 0 <= a < b < s.push((user, amount)).len()
        implies s.push((user, amount))[a].0 != s.push((user, amount))[b].0 by {
        if b < s.len() {
            assert(s[a].0 != s[b].0);
        } else {
            assert(s.push((user, amount))[b] == (user, amount));
            assert(s[a].0 != user);
        }
    }
}

/// Billing conservation: pre-charging an estimate and refunding the excess
/// moves the balance down by exactly the actual cost, whenever the actual
/// cost does not exceed the pre-charge. The balance never goes negative;
/// with an actual cost above the pre-charge, the net change is the
/// pre-charge itself.
pub proof fn lemma_billing_conservation(
    before: BillingLedger,
    mid: BillingLedger,
    after: BillingLedger,
    user: Seq<char>,
    estimated: u64,
    actual: u64,
)
    requires
        actual <= estimated,
        estimated <= before.spec_balance_of(user),
        mid.spec_balance_of(user) == before.spec_balance_of(user) - estimated,
        actual < estimated ==> after.spec_balance_of(user)
            == mid.spec_balance_of(user) + (estimated - actual),
        actual >= estimated ==> after.spec_balance_of(user) == mid.spec_balance_of(user),
    ensures
        before.spec_balance_of(user) - after.spec_balance_of(user) == actual,
        after.spec_balance_of(user) >= 0,
{
}

} // verus!
