//! The record that the pool keeps of each asset, and the claim that a
//! liquidity provider holds on it.

use vstd::prelude::*;
use crate::arith::{mul_div_floor, Balance, FixedU128, Permill};
use crate::tradability::Tradability;

verus! {

/// Identifier of an asset.
pub type AssetId = u32;

/// Identifier of an account of the ledger.
pub type AccountId = u64;

/// Identifier of a liquidity position.
pub type PositionId = u64;

/// What the pool holds and owes for one asset.
#[derive(Clone, Copy, Debug, PartialEq, Eq, Structural)]
pub struct AssetReserveState {
    /// Amount of the asset that the pool holds.
    pub reserve: Balance,
    /// Amount of hub asset attributed to this asset.
    pub hub_reserve: Balance,
    /// Liquidity shares issued for this asset.
    pub shares: Balance,
    /// The part of `shares` that the protocol itself owns.
    pub protocol_shares: Balance,
    /// Largest fraction of all hub liquidity that this asset may stand for.
    pub cap: Permill,
    /// Operations that the asset admits.
    pub tradable: Tradability,
}

impl AssetReserveState {
    /// The invariant of a record: the protocol owns no more shares than exist.
    pub open spec fn wf(self) -> bool {
        &&& self.shares >= self.protocol_shares
        &&& self.cap.in_range()
    }

    /// An asset is active while the pool holds some of it and some hub asset
    /// is attributed to it.
    pub open spec fn active(self) -> bool {
        self.reserve > 0 && self.hub_reserve > 0
    }

    /// Whether the asset may be sold into the pool.
    pub open spec fn can_sell_spec(self) -> bool {
        self.tradable.sell
    }

    /// Whether the asset may be bought from the pool.
    pub open spec fn can_buy_spec(self) -> bool {
        self.tradable.buy
    }

    /// Whether liquidity of the asset may be added.
    pub open spec fn can_add_spec(self) -> bool {
        self.tradable.add_liquidity
    }

    /// Whether liquidity of the asset may be removed.
    pub open spec fn can_remove_spec(self) -> bool {
        self.tradable.remove_liquidity
    }

    /// The price of the asset in hub asset, `hub_reserve / reserve`, with
    /// eighteen decimal places, cut off; `None` where the reserve is empty or
    /// the price too large.
    pub open spec fn price_spec(self) -> Option<FixedU128> {
        match mul_div_floor(self.hub_reserve as nat, 1_000_000_000_000_000_000, self.reserve as nat) {
            Some(inner) => Some(FixedU128 { inner }),
            None => None,
        }
    }

    /// Whether the record keeps its invariant.
    pub fn is_wf(&self) -> (res: bool)
        ensures
            res == self.wf(),
    {
        proof {
            use_type_invariant(&self.cap);
        }
        self.shares >= self.protocol_shares
    }

    /// Whether the pool holds some of the asset and some hub asset for it.
    pub fn is_active(&self) -> (res: bool)
        ensures
            res == self.active(),
    {
        self.reserve > 0 && self.hub_reserve > 0
    }

    /// The price of the asset in hub asset.
    pub fn price(&self) -> (res: Option<FixedU128>)
        ensures
            res == self.price_spec(),
    {
        FixedU128::checked_from_rational(self.hub_reserve, self.reserve)
    }

    /// Whether the asset may be sold into the pool.
    pub fn can_sell(&self) -> (res: bool)
        ensures
            res == self.can_sell_spec(),
    {
        self.tradable.sell
    }

    /// Whether the asset may be bought from the pool.
    pub fn can_buy(&self) -> (res: bool)
        ensures
            res == self.can_buy_spec(),
    {
        self.tradable.buy
    }

    /// Whether liquidity of the asset may be added.
    pub fn can_add(&self) -> (res: bool)
        ensures
            res == self.can_add_spec(),
    {
        self.tradable.add_liquidity
    }

    /// Whether liquidity of the asset may be removed.
    pub fn can_remove(&self) -> (res: bool)
        ensures
            res == self.can_remove_spec(),
    {
        self.tradable.remove_liquidity
    }
}

/// `a`'s hub price is strictly below `b`'s: `a.hub_reserve / a.reserve <
/// b.hub_reserve / b.reserve`, compared without dividing.
pub open spec fn price_lt(a: AssetReserveState, b: AssetReserveState) -> bool {
    a.hub_reserve * b.reserve < b.hub_reserve * a.reserve
}

/// `a`'s hub price is at most `b`'s.
pub open spec fn price_le(a: AssetReserveState, b: AssetReserveState) -> bool {
    a.hub_reserve * b.reserve <= b.hub_reserve * a.reserve
}

/// The claim of a liquidity provider: what was put in, the shares received for
/// it, and the asset's price at that moment as a ratio of two amounts.
#[derive(Clone, Copy, Debug, PartialEq, Eq, Structural)]
pub struct Position {
    /// The account that owns the position.
    pub owner: AccountId,
    /// The asset that was provided.
    pub asset_id: AssetId,
    /// Amount of the asset that the position still stands for.
    pub amount: Balance,
    /// Shares that the position still holds.
    pub shares: Balance,
    /// Hub reserve of the asset when the position was opened.
    pub price_hub_reserve: Balance,
    /// Reserve of the asset when the position was opened.
    pub price_reserve: Balance,
}

impl Position {
    /// The price at which the position was opened.
    pub open spec fn price_spec(self) -> Option<FixedU128> {
        match mul_div_floor(
            self.price_hub_reserve as nat,
            1_000_000_000_000_000_000,
            self.price_reserve as nat,
        ) {
            Some(inner) => Some(FixedU128 { inner }),
            None => None,
        }
    }

    /// The price at which the position was opened; `None` where it was
    /// opened on an empty reserve.
    pub fn price(&self) -> (res: Option<FixedU128>)
        ensures
            res == self.price_spec(),
    {
        FixedU128::checked_from_rational(self.price_hub_reserve, self.price_reserve)
    }
}

} // verus!
