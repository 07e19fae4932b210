//! The bookkeeping of a pool's liquidity token: supply, balances, allowances.

use crate::account::AccountId;
use crate::ledger::{
    amount_of, amounts, distinct_keys, has_key, lemma_amount_at, lemma_amount_of_le_total,
    lemma_push_amounts, lemma_update_amounts, total,
};
use vstd::prelude::*;

verus! {

/// Why a token operation was refused.
#[derive(Clone, Copy, Debug, PartialEq, Eq, Structural)]
pub enum PSP22Error {
    /// The account holds less than the amount to move or burn.
    InsufficientBalance,
    /// The spender is allowed less than the amount to move.
    InsufficientAllowance,
}

/// The token's state as mathematics: the supply and two total functions.
pub struct Psp22State {
    pub supply: u128,
    pub balances: Map<AccountId, u128>,
    pub allowances: Map<(AccountId, AccountId), u128>,
}

impl Psp22State {
    /// The state of a token of which nothing was issued and nothing is allowed.
    pub open spec fn empty() -> Psp22State {
        Psp22State {
            supply: 0,
            balances: Map::new(|who: AccountId| true, |who: AccountId| 0u128),
            allowances: Map::new(
                |pair: (AccountId, AccountId)| true,
                |pair: (AccountId, AccountId)| 0u128,
            ),
        }
    }

    /// The state after `amount` new units went to `to`.
    pub open spec fn minted(self, to: AccountId, amount: u128) -> Psp22State {
        Psp22State {
            supply: (self.supply + amount) as u128,
            balances: self.balances.insert(to, (self.balances[to] + amount) as u128),
            allowances: self.allowances,
        }
    }

    /// The state after `amount` units of `from` were destroyed.
    pub open spec fn burned(self, from: AccountId, amount: u128) -> Psp22State {
        Psp22State {
            supply: (self.supply - amount) as u128,
            balances: self.balances.insert(from, (self.balances[from] - amount) as u128),
            allowances: self.allowances,
        }
    }

    /// The state after `amount` units went from `from` to `to`.
    pub open spec fn moved(self, from: AccountId, to: AccountId, amount: u128) -> Psp22State {
        let taken = self.balances.insert(from, (self.balances[from] - amount) as u128);
        Psp22State {
            supply: self.supply,
            balances: taken.insert(to, (taken[to] + amount) as u128),
            allowances: self.allowances,
        }
    }

    /// The state after `owner` allowed `spender` to move `amount`.
    pub open spec fn approved(self, owner: AccountId, spender: AccountId, amount: u128)
        -> Psp22State {
        Psp22State {
            supply: self.supply,
            balances: self.balances,
            allowances: self.allowances.insert((owner, spender), amount),
        }
    }

    /// What `transfer_from` does for `caller`: the error it gives, or the state it leaves.
    /// An allowance of `u128::MAX` is unlimited and is never reduced.
    pub open spec fn spent(self, caller: AccountId, from: AccountId, to: AccountId, value: u128)
        -> Result<Psp22State, PSP22Error> {
        let allowed = self.allowances[(from, caller)];
        if allowed != u128::MAX && allowed < value {
            Err(PSP22Error::InsufficientAllowance)
        } else if self.balances[from] < value {
            Err(PSP22Error::InsufficientBalance)
        } else if allowed != u128::MAX {
            Ok(self.approved(from, caller, (allowed - value) as u128).moved(from, to, value))
        } else {
            Ok(self.moved(from, to, value))
        }
    }
}

/// Supply, balances and allowances of a liquidity token.
#[derive(Debug)]
pub struct Psp22Data {
    supply: u128,
    balances: Vec<(AccountId, u128)>,
    allowances: Vec<((AccountId, AccountId), u128)>,
}

impl View for Psp22Data {
    type V = Psp22State;

    closed spec fn view(&self) -> Psp22State {
        Psp22State {
            supply: self.supply,
            balances: amounts(self.balances@),
            allowances: amounts(self.allowances@),
        }
    }
}

impl Psp22Data {
    /// No account and no pair of accounts is recorded twice, and the balances sum to the supply.
    pub closed spec fn wf(&self) -> bool {
        &&& distinct_keys(self.balances@)
        &&& distinct_keys(self.allowances@)
        &&& total(self.balances@) == self.supply
    }

    /// In a well-formed token every balance and allowance is defined, and no
    /// account holds more than the supply.
    pub proof fn lemma_wf(&self)
        requires
            self.wf(),
        ensures
            forall|who: AccountId| #[trigger] self@.balances.dom().contains(who),
            forall|who: AccountId| #[trigger] self@.balances[who] <= self@.supply,
            forall|pair: (AccountId, AccountId)| #[trigger] self@.allowances.dom().contains(pair),
            self@.supply == 0 ==> forall|who: AccountId| #[trigger] self@.balances[who] == 0,
    {
        assert forall|who: AccountId| #[trigger] self@.balances[who] <= self@.supply by {
            lemma_amount_of_le_total(self.balances@, who);
        }
    }

    /// A token of which nothing was issued.
    pub fn new() -> (r: Psp22Data)
        ensures
            r.wf(),
            r@ == Psp22State::empty(),
    {
        let r = Psp22Data { supply: 0, balances: Vec::new(), allowances: Vec::new() };
        proof {
            assert(r@.balances =~= Psp22State::empty().balances);
            assert(r@.allowances =~= Psp22State::empty().allowances);
        }
        r
    }

    /// The units in existence.
    pub fn total_supply(&self) -> (r: u128)
        ensures
            r == self@.supply,
    {
        self.supply
    }

    fn find_balance(&self, who: &AccountId) -> (r: Option<usize>)
        ensures
            match r {
                Some(i) => i < self.balances@.len() && self.balances@[i as int].0 == *who,
                None => !has_key(self.balances@, *who),
            },
    {
        let mut i: usize = 0;
        while i < self.balances.len()
            invariant
                i <= self.balances@.len(),
                forall|j: int| 0 <= j < i ==> (#[trigger] self.balances@[j]).0 != *who,
            decreases self.balances@.len() - i,
        {
            if self.balances[i].0 == *who {
                return Some(i);
            }
            i = i + 1;
        }
        None
    }

    fn find_allowance(&self, owner: &AccountId, spender: &AccountId) -> (r: Option<usize>)
        ensures
            match r {
                Some(i) => i < self.allowances@.len() && self.allowances@[i as int].0 == (
                    *owner,
                    *spender,
                ),
                None => !has_key(self.allowances@, (*owner, *spender)),
            },
    {
        let mut i: usize = 0;
        while i < self.allowances.len()
            invariant
                i <= self.allowances@.len(),
                forall|j: int|
                    0 <= j < i ==> (#[trigger] self.allowances@[j]).0 != (*owner, *spender),
            decreases self.allowances@.len() - i,
        {
            if self.allowances[i].0.0 == *owner && self.allowances[i].0.1 == *spender {
                return Some(i);
            }
            i = i + 1;
        }
        None
    }

    /// The units that `who` holds.
    pub fn balance_of(&self, who: &AccountId) -> (r: u128)
        requires
            self.wf(),
        ensures
            r == self@.balances[*who],
            r <= self@.supply,
    {
        proof {
            lemma_amount_of_le_total(self.balances@, *who);
        }
        self.lookup_balance(who)
    }

    fn lookup_balance(&self, who: &AccountId) -> (r: u128)
        requires
            distinct_keys(self.balances@),
        ensures
            r == amount_of(self.balances@, *who),
    {
        match self.find_balance(who) {
            Some(i) => {
                proof {
                    lemma_amount_at(self.balances@, i as int);
                }
                self.balances[i].1
            },
            None => 0,
        }
    }

    /// The units that `spender` may move out of the account of `owner`.
    pub fn allowance(&self, owner: &AccountId, spender: &AccountId) -> (r: u128)
        requires
            self.wf(),
        ensures
            r == self@.allowances[(*owner, *spender)],
    {
        match self.find_allowance(owner, spender) {
            Some(i) => {
                proof {
                    lemma_amount_at(self.allowances@, i as int);
                }
                self.allowances[i].1
            },
            None => 0,
        }
    }

    fn set_balance(&mut self, who: AccountId, value: u128)
        requires
            distinct_keys(old(self).balances@),
        ensures
            distinct_keys(final(self).balances@),
            amounts(final(self).balances@) == amounts(old(self).balances@).insert(who, value),
            total(final(self).balances@) == total(old(self).balances@) - amount_of(
                old(self).balances@,
                who,
            ) + value,
            final(self).supply == old(self).supply,
            final(self).allowances == old(self).allowances,
    {
        match self.find_balance(&who) {
            Some(i) => {
                proof {
                    lemma_amount_at(self.balances@, i as int);
                    lemma_update_amounts(self.balances@, i as int, value);
                }
                self.balances.set(i, (who, value));
            },
            None => {
                proof {
                    lemma_push_amounts(self.balances@, who, value);
                }
                self.balances.push((who, value));
            },
        }
    }

    /// Issues `amount` new units to `account`. The null account is no exception.
    pub fn credit(&mut self, account: AccountId, amount: u128) -> (r: Result<(), PSP22Error>)
        requires
            old(self).wf(),
            old(self)@.supply + amount <= u128::MAX,
        ensures
            final(self).wf(),
            r is Ok,
            final(self)@ == old(self)@.minted(account, amount),
    {
        proof {
            lemma_amount_of_le_total(self.balances@, account);
        }
        let mut new_balance: u128 = self.lookup_balance(&account);
        new_balance = new_balance + amount;
        self.set_balance(account, new_balance);
        self.supply = self.supply + amount;
        Ok(())
    }

    /// Destroys `amount` units of `account`, which must hold as many.
    pub fn debit(&mut self, account: AccountId, amount: u128) -> (r: Result<
        (),
        PSP22Error,
    >)
        requires
            old(self).wf(),
        ensures
            final(self).wf(),
            old(self)@.balances[account] < amount ==> r == Err::<(), PSP22Error>(
                PSP22Error::InsufficientBalance,
            ) && final(self)@ == old(self)@,
            old(self)@.balances[account] >= amount ==> r is Ok && final(self)@ == old(
                self,
            )@.burned(account, amount),
    {
        proof {
            lemma_amount_of_le_total(self.balances@, account);
        }
        let mut from_balance: u128 = self.lookup_balance(&account);
        if from_balance < amount {
            return Err(PSP22Error::InsufficientBalance);
        }
        from_balance = from_balance - amount;
        self.set_balance(account, from_balance);
        self.supply = self.supply - amount;
        Ok(())
    }

    /// Records that `owner` allows `spender` to move `amount`, in place of any earlier allowance.
    pub fn set_allowance(&mut self, owner: AccountId, spender: AccountId, amount: u128) -> (r:
        Result<(), PSP22Error>)
        requires
            old(self).wf(),
        ensures
            final(self).wf(),
            r is Ok,
            final(self)@ == old(self)@.approved(owner, spender, amount),
    {
        match self.find_allowance(&owner, &spender) {
            Some(i) => {
                proof {
                    lemma_update_amounts(self.allowances@, i as int, amount);
                }
                self.allowances.set(i, ((owner, spender), amount));
            },
            None => {
                proof {
                    lemma_push_amounts(self.allowances@, (owner, spender), amount);
                }
                self.allowances.push(((owner, spender), amount));
            },
        }
        Ok(())
    }

    /// Moves `amount` units from `from` to `to`; `from` must hold as many.
    pub fn move_units(&mut self, from: AccountId, to: AccountId, amount: u128) -> (r:
        Result<(), PSP22Error>)
        requires
            old(self).wf(),
        ensures
            final(self).wf(),
            old(self)@.balances[from] < amount ==> r == Err::<(), PSP22Error>(
                PSP22Error::InsufficientBalance,
            ) && final(self)@ == old(self)@,
            old(self)@.balances[from] >= amount ==> r is Ok && final(self)@ == old(self)@.moved(
                from,
                to,
                amount,
            ),
    {
        let from_balance: u128 = self.lookup_balance(&from);
        if from_balance < amount {
            return Err(PSP22Error::InsufficientBalance);
        }
        self.set_balance(from, from_balance - amount);
        let to_balance: u128 = self.lookup_balance(&to);
        proof {
            lemma_amount_of_le_total(self.balances@, to);
        }
        self.set_balance(to, to_balance + amount);
        Ok(())
    }
}

} // verus!
