//! Balances of fungible assets by account: what the pool moves when it
//! trades.

use vstd::prelude::*;
use crate::arith::Balance;
use crate::error::Error;
use crate::state::{AccountId, AssetId};
use crate::table::Table;

verus! {

/// Balances of every account and asset; what is not recorded is zero.
pub type Balances = Map<(AccountId, AssetId), Balance>;

/// The place of an account's balance of an asset in the table.
pub open spec fn account_key(who: AccountId, asset: AssetId) -> u128 {
    (who * 0x1_0000_0000 + asset) as u128
}

/// Different accounts or assets have different places.
pub proof fn lemma_account_key_injective(w1: AccountId, a1: AssetId, w2: AccountId, a2: AssetId)
    requires
        account_key(w1, a1) == account_key(w2, a2),
    ensures
        w1 == w2,
        a1 == a2,
{
}

/// The balances after `amount` more of `asset` is given to `who`; `None`
/// where the balance would leave 128 bits.
pub open spec fn credit(m: Balances, who: AccountId, asset: AssetId, amount: nat) -> Option<Balances> {
    if m[(who, asset)] + amount > u128::MAX {
        None
    } else {
        Some(m.insert((who, asset), (m[(who, asset)] + amount) as u128))
    }
}

/// The balances after `amount` of `asset` is taken from `who`; `None` where
/// `who` holds less.
pub open spec fn debit(m: Balances, who: AccountId, asset: AssetId, amount: nat) -> Option<Balances> {
    if m[(who, asset)] < amount {
        None
    } else {
        Some(m.insert((who, asset), (m[(who, asset)] - amount) as u128))
    }
}

/// Taking from an account, as a result: a balance too low is the error.
pub open spec fn debited(m: Balances, who: AccountId, asset: AssetId, amount: nat) -> Result<
    Balances,
    Error,
> {
    match debit(m, who, asset, amount) {
        None => Err(Error::InsufficientBalance),
        Some(m1) => Ok(m1),
    }
}

/// Giving to an account, as a result: a balance beyond 128 bits is the error.
pub open spec fn credited(m: Balances, who: AccountId, asset: AssetId, amount: nat) -> Result<
    Balances,
    Error,
> {
    match credit(m, who, asset, amount) {
        None => Err(Error::Overflow),
        Some(m1) => Ok(m1),
    }
}

/// The balances after `amount` of `asset` has gone from `from` to `to`.
pub open spec fn moved(m: Balances, asset: AssetId, from: AccountId, to: AccountId, amount: nat) -> Result<
    Balances,
    Error,
> {
    match debited(m, from, asset, amount) {
        Err(e) => Err(e),
        Ok(m1) => credited(m1, to, asset, amount),
    }
}

/// An in-memory ledger of balances.
pub struct Ledger {
    accounts: Table<Balance>,
}

impl Ledger {
    /// The ledger's internal invariant.
    pub closed spec fn wf(&self) -> bool {
        self.accounts.wf()
    }

    /// What `who` holds of `asset`.
    pub closed spec fn balance(&self, who: AccountId, asset: AssetId) -> Balance {
        if self.accounts@.dom().contains(account_key(who, asset)) {
            self.accounts@[account_key(who, asset)]
        } else {
            0
        }
    }

    /// All balances: a map defined on every account and asset.
    pub open spec fn view(&self) -> Balances {
        Map::total(|k: (AccountId, AssetId)| self.balance(k.0, k.1))
    }

    /// A ledger on which every balance is zero.
    pub fn new() -> (res: Ledger)
        ensures
            res.wf(),
            forall|who: AccountId, asset: AssetId| res@[(who, asset)] == 0,
    {
        Ledger { accounts: Table::new() }
    }

    fn key(who: AccountId, asset: AssetId) -> (res: u128)
        ensures
            res == account_key(who, asset),
    {
        (who as u128) * 0x1_0000_0000 + (asset as u128)
    }

    /// What `who` holds of `asset`.
    pub fn free_balance(&self, asset: AssetId, who: AccountId) -> (res: Balance)
        requires
            self.wf(),
        ensures
            res == self@[(who, asset)],
    {
        match self.accounts.get(Self::key(who, asset)) {
            Some(b) => b,
            None => 0,
        }
    }

    fn set_balance(&mut self, who: AccountId, asset: AssetId, value: Balance)
        requires
            old(self).wf(),
        ensures
            final(self).wf(),
            final(self)@ == old(self)@.insert((who, asset), value),
    {
        self.accounts.set(Self::key(who, asset), value);
        proof {
            assert forall|k: (AccountId, AssetId)| #[trigger] self@[k] == old(self)@.insert((who, asset), value)[k] by {
                if k != (who, asset) {
                    if account_key(k.0, k.1) == account_key(who, asset) {
                        lemma_account_key_injective(k.0, k.1, who, asset);
                    }
                }
            }
            assert(self@ =~= old(self)@.insert((who, asset), value));
        }
    }

    /// Creates `amount` of `asset` on the account of `who`.
    pub fn mint_into(&mut self, asset: AssetId, who: AccountId, amount: Balance) -> (res: Result<(), Error>)
        requires
            old(self).wf(),
        ensures
            final(self).wf(),
            match res {
                Ok(_) => credited(old(self)@, who, asset, amount as nat) == Ok::<Balances, Error>(
                    final(self)@,
                ),
                Err(e) => credited(old(self)@, who, asset, amount as nat) == Err::<Balances, Error>(e)
                    && *final(self) == *old(self),
            },
    {
        let held = self.free_balance(asset, who);
        match held.checked_add(amount) {
            Some(sum) => {
                self.set_balance(who, asset, sum);
                Ok(())
            },
            None => Err(Error::Overflow),
        }
    }

    /// Destroys `amount` of `asset` on the account of `who`.
    pub fn burn_from(&mut self, asset: AssetId, who: AccountId, amount: Balance) -> (res: Result<(), Error>)
        requires
            old(self).wf(),
        ensures
            final(self).wf(),
            match res {
                Ok(_) => debited(old(self)@, who, asset, amount as nat) == Ok::<Balances, Error>(
                    final(self)@,
                ),
                Err(e) => debited(old(self)@, who, asset, amount as nat) == Err::<Balances, Error>(e)
                    && *final(self) == *old(self),
            },
    {
        let held = self.free_balance(asset, who);
        if held < amount {
            return Err(Error::InsufficientBalance);
        }
        self.set_balance(who, asset, held - amount);
        Ok(())
    }

    /// Moves `amount` of `asset` from `from` to `to`, or nothing at all.
    pub fn transfer(&mut self, asset: AssetId, from: AccountId, to: AccountId, amount: Balance) -> (res:
        Result<(), Error>)
        requires
            old(self).wf(),
        ensures
            final(self).wf(),
            match res {
                Ok(_) => moved(old(self)@, asset, from, to, amount as nat) == Ok::<Balances, Error>(
                    final(self)@,
                ),
                Err(e) => moved(old(self)@, asset, from, to, amount as nat) == Err::<Balances, Error>(e)
                    && *final(self) == *old(self),
            },
    {
        let held = self.free_balance(asset, from);
        if held < amount {
            return Err(Error::InsufficientBalance);
        }
        if from == to {
            proof {
                let m = self@;
                let m1 = m.insert((from, asset), (held - amount) as u128);
                assert(m1.insert((from, asset), held) =~= m);
            }
            return Ok(());
        }
        let received = self.free_balance(asset, to);
        match received.checked_add(amount) {
            Some(sum) => {
                self.set_balance(from, asset, held - amount);
                self.set_balance(to, asset, sum);
                Ok(())
            },
            None => Err(Error::Overflow),
        }
    }

    /// A second ledger with the same balances.
    pub fn duplicate(&self) -> (res: Ledger)
        requires
            self.wf(),
        ensures
            res.wf(),
            res@ == self@,
    {
        let mut copy: Table<Balance> = Table::new();
        let mut i: usize = 0;
        while i < self.accounts.len()
            invariant
                i <= self.accounts.entries().len(),
                self.accounts.wf(),
                copy.wf(),
                copy.entries() == self.accounts.entries().subrange(0, i as int),
            decreases self.accounts.entries().len() - i,
        {
            let e = self.accounts.entry(i);
            proof {
                let s = self.accounts.entries();
                let prefix = s.subrange(0, i as int);
                if crate::table::has_key(prefix, e.0) {
                    let p = crate::table::position_of(prefix, e.0);
                    assert(prefix[p] == s[p]);
                    assert(s[p].0 != s[i as int].0);
                }
                assert(prefix.push(e) =~= s.subrange(0, i + 1));
            }
            copy.set(e.0, e.1);
            i = i + 1;
        }
        proof {
            assert(self.accounts.entries().subrange(0, i as int) =~= self.accounts.entries());
        }
        let res = Ledger { accounts: copy };
        proof {
            assert(res@ =~= self@);
        }
        res
    }
}

} // verus!
