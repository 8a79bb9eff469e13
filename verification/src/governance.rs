//! Rules of the treasury and of the scheduler: how the treasury pays, and
//! which of two origins of a call has the greater privilege.

use std::cmp::Ordering;
use vstd::prelude::*;
use crate::arith::{widening_mul, Balance};
use crate::error::Error;
use crate::ledger::{moved, Balances, Ledger};
use crate::state::{AccountId, AssetId};

verus! {

/// How a payment of the treasury stands.
#[derive(Clone, Copy, Debug, PartialEq, Eq, Structural)]
pub enum PaymentStatus {
    /// The payment is under way.
    InProgress,
    /// Nothing is known of the payment.
    Unknown,
    /// The payment has been made.
    Success,
    /// The payment has failed.
    Failure,
}

/// Pays out of the account of the treasury.
pub struct PayFromTreasuryAccount;

impl PayFromTreasuryAccount {
    /// Pays `amount` of the native asset from the treasury to `who`. The
    /// treasury's account may be emptied by it.
    pub fn pay(
        ledger: &mut Ledger,
        treasury: AccountId,
        native_asset: AssetId,
        who: AccountId,
        amount: Balance,
    ) -> (res: Result<(), Error>)
        requires
            old(ledger).wf(),
        ensures
            final(ledger).wf(),
            match res {
                Ok(_) => moved(old(ledger)@, native_asset, treasury, who, amount as nat) == Ok::<
                    Balances,
                    Error,
                >(final(ledger)@),
                Err(e) => moved(old(ledger)@, native_asset, treasury, who, amount as nat) == Err::<
                    Balances,
                    Error,
                >(e) && *final(ledger) == *old(ledger),
            },
    {
        ledger.transfer(native_asset, treasury, who, amount)
    }

    /// A payment is made at once, so every payment has succeeded.
    pub fn check_payment(id: ()) -> (res: PaymentStatus)
        ensures
            res == PaymentStatus::Success,
    {
        PaymentStatus::Success
    }
}

/// An origin of the system itself.
#[derive(Clone, Copy, Debug, PartialEq, Eq, Structural)]
pub enum RawOrigin {
    /// The system's own authority.
    Root,
    /// An account that signed.
    Signed(AccountId),
    /// No origin at all.
    Nobody,
}

/// An origin of a collective.
#[derive(Clone, Copy, Debug, PartialEq, Eq, Structural)]
pub enum CollectiveOrigin {
    /// So many members voted yes, out of so many.
    Members(u32, u32),
    /// One member.
    Member(AccountId),
}

/// Where a call comes from.
#[derive(Clone, Copy, Debug, PartialEq, Eq, Structural)]
pub enum OriginCaller {
    /// The system.
    System(RawOrigin),
    /// The council.
    Council(CollectiveOrigin),
    /// The technical committee.
    TechnicalCommittee(CollectiveOrigin),
}

/// How `l_yes` votes of `l_count` stand to `r_yes` of `r_count`: the
/// fractions are compared by their cross products.
pub open spec fn votes_ordering(l_yes: u32, l_count: u32, r_yes: u32, r_count: u32) -> Ordering {
    if l_yes * r_count < r_yes * l_count {
        Ordering::Less
    } else if l_yes * r_count == r_yes * l_count {
        Ordering::Equal
    } else {
        Ordering::Greater
    }
}

/// The privilege of `left` measured against `right`, where the two can be
/// measured.
pub open spec fn privilege(left: OriginCaller, right: OriginCaller) -> Option<Ordering> {
    if left == right {
        Some(Ordering::Equal)
    } else {
        match (left, right) {
            (OriginCaller::System(RawOrigin::Root), _) => Some(Ordering::Greater),
            (
                OriginCaller::Council(CollectiveOrigin::Members(l_yes, l_count)),
                OriginCaller::Council(CollectiveOrigin::Members(r_yes, r_count)),
            ) => Some(votes_ordering(l_yes, l_count, r_yes, r_count)),
            _ => None,
        }
    }
}

/// Compares the privilege of origins for the scheduler.
pub struct OriginPrivilegeCmp;

impl OriginPrivilegeCmp {
    /// The privilege of `left` measured against `right`.
    ///
    /// Equal origins are equal. The root is greater than anything else. Of
    /// two votes of the council the one with the greater share of yes votes
    /// is greater. No other pair is measured.
    pub fn cmp_privilege(left: &OriginCaller, right: &OriginCaller) -> (res: Option<Ordering>)
        ensures
            res == privilege(*left, *right),
    {
        if *left == *right {
            return Some(Ordering::Equal);
        }
        match (left, right) {
            (OriginCaller::System(RawOrigin::Root), _) => Some(Ordering::Greater),
            (
                OriginCaller::Council(CollectiveOrigin::Members(l_yes, l_count)),
                OriginCaller::Council(CollectiveOrigin::Members(r_yes, r_count)),
            ) => {
                let l = widening_mul(*l_yes, *r_count);
                let r = widening_mul(*r_yes, *l_count);
                if l < r {
                    Some(Ordering::Less)
                } else if l == r {
                    Some(Ordering::Equal)
                } else {
                    Some(Ordering::Greater)
                }
            },
            _ => None,
        }
    }
}

/// Measuring the other way round turns the result round.
pub proof fn lemma_privilege_antisymmetric(left: OriginCaller, right: OriginCaller)
    requires
        privilege(left, right) == Some(Ordering::Less),
    ensures
        privilege(right, left) == Some(Ordering::Greater),
{
}

} // verus!
