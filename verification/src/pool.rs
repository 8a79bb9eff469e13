//! The pool: the records of its assets, the ledger it moves balances on, the
//! positions of its liquidity providers, and the operations on them.
//!
//! Every operation does what the model says of it, all of it or nothing: a
//! refused operation leaves the pool as it was.

use vstd::prelude::*;
use crate::arith::{mul_div_part, Balance, FixedU128, Permill};
use crate::error::Error;
use crate::ledger::Ledger;
use crate::math::{
    apply_added, apply_in, apply_out, apply_removed, calculate_add_liquidity_state_changes,
    calculate_buy_for_hub_asset_state_changes, calculate_buy_state_changes,
    calculate_remove_liquidity_state_changes, calculate_sell_hub_state_changes,
    calculate_sell_state_changes, trade_change_bounded, AssetOutChange, TradeStateChange,
};
use crate::model::{
    add_liquidity_outcome, add_token_outcome, buy_outcome, buy_report, buy_with_hub_outcome,
    deposit_outcome, hub_liquidity_with, hub_trade_committed, hub_trade_report, initial_state_spec,
    load_outcome, position_spec, price_within_tolerance, remove_liquidity_outcome, remove_quote,
    sell_hub_outcome, sell_outcome, sell_report, set_tradable_outcome, sum_of_hub_reserves,
    trade_committed, trade_report, transfer_outcome, Config, PoolState, TradeExecuted,
};
use crate::state::{AccountId, AssetId, AssetReserveState, Position, PositionId};
use crate::table::{has_key, lemma_position_unique, position_of, Table};
use crate::tradability::Tradability;

verus! {

/// The sum of the hub reserves of the records in `s`.
pub open spec fn hub_sum(s: Seq<(u128, AssetReserveState)>) -> nat
    decreases s.len(),
{
    if s.len() == 0 {
        0
    } else {
        hub_sum(s.drop_last()) + s.last().1.hub_reserve as nat
    }
}

/// No record holds more hub asset than all of them together.
pub proof fn lemma_hub_sum_bounds(s: Seq<(u128, AssetReserveState)>, i: int)
    requires
        0 <= i < s.len(),
    ensures
        s[i].1.hub_reserve <= hub_sum(s),
    decreases s.len(),
{
    if i < s.len() - 1 {
        lemma_hub_sum_bounds(s.drop_last(), i);
    }
}

/// Replacing one record changes the sum by the difference of the two hub
/// reserves.
pub proof fn lemma_hub_sum_update(s: Seq<(u128, AssetReserveState)>, i: int, e: (u128, AssetReserveState))
    requires
        0 <= i < s.len(),
    ensures
        hub_sum(s.update(i, e)) == hub_sum(s) - s[i].1.hub_reserve + e.1.hub_reserve,
    decreases s.len(),
{
    let t = s.update(i, e);
    if i == s.len() - 1 {
        assert(t.drop_last() =~= s.drop_last());
    } else {
        assert(t.drop_last() =~= s.drop_last().update(i, e));
        lemma_hub_sum_update(s.drop_last(), i, e);
    }
}

/// Appending a record adds its hub reserve to the sum.
pub proof fn lemma_hub_sum_push(s: Seq<(u128, AssetReserveState)>, e: (u128, AssetReserveState))
    ensures
        hub_sum(s.push(e)) == hub_sum(s) + e.1.hub_reserve,
{
    assert(s.push(e).drop_last() =~= s);
}

/// The records of a table by asset.
pub open spec fn assets_of(t: Map<u128, AssetReserveState>) -> Map<AssetId, AssetReserveState> {
    Map::new(|id: AssetId| t.dom().contains(id as u128), |id: AssetId| t[id as u128])
}

/// The positions of a table by identifier.
pub open spec fn positions_of(t: Map<u128, Position>) -> Map<PositionId, Position> {
    Map::new(|id: PositionId| t.dom().contains(id as u128), |id: PositionId| t[id as u128])
}

/// A pool of assets that trade against one hub asset.
pub struct Omnipool {
    config: Config,
    assets: Table<AssetReserveState>,
    ledger: Ledger,
    positions: Table<Position>,
    next_position_id: PositionId,
}

impl Omnipool {
    /// The pool as its mathematical model.
    pub closed spec fn view(&self) -> PoolState {
        PoolState {
            config: self.config,
            assets: assets_of(self.assets@),
            hub_liquidity: hub_sum(self.assets.entries()),
            balances: self.ledger@,
            positions: positions_of(self.positions@),
            next_position_id: self.next_position_id,
        }
    }

    /// What holds of the tables whatever the balances are.
    pub closed spec fn tables_wf(&self) -> bool {
        &&& self.assets.wf()
        &&& self.positions.wf()
        &&& self.ledger.wf()
        &&& forall|i: int|
            0 <= i < self.assets.entries().len() ==> (#[trigger] self.assets.entries()[i]).0 <= u32::MAX
    }

    /// The invariant of a pool: every constructor establishes it and every
    /// operation keeps it.
    pub closed spec fn wf(&self) -> bool {
        &&& self.tables_wf()
        &&& self@.wf()
    }

    /// A pool's model satisfies the model's invariant.
    pub proof fn lemma_wf_view(&self)
        requires
            self.wf(),
        ensures
            self@.wf(),
    {
    }

    /// A pool without assets, on a ledger without balances; `None` when the
    /// configuration is not valid.
    pub fn new(config: Config) -> (res: Option<Omnipool>)
        ensures
            res is Some <==> config.valid(),
            res matches Some(p) ==> {
                &&& p.wf()
                &&& p@.config == config
                &&& p@.assets == Map::<AssetId, AssetReserveState>::empty()
                &&& p@.hub_liquidity == 0
                &&& p@.positions == Map::<PositionId, Position>::empty()
                &&& p@.next_position_id == 0
                &&& forall|who: AccountId, asset: AssetId| p@.balances[(who, asset)] == 0
            },
    {
        if !config.is_valid() {
            return None;
        }
        let p = Omnipool {
            config,
            assets: Table::new(),
            ledger: Ledger::new(),
            positions: Table::new(),
            next_position_id: 0,
        };
        proof {
            assert(p@.assets =~= Map::<AssetId, AssetReserveState>::empty());
            assert(p@.positions =~= Map::<PositionId, Position>::empty());
        }
        Some(p)
    }

    /// The configuration of the pool.
    pub fn config(&self) -> (res: Config)
        ensures
            res == self@.config,
    {
        self.config
    }

    /// What `who` holds of `asset`.
    pub fn free_balance(&self, asset: AssetId, who: AccountId) -> (res: Balance)
        requires
            self.wf(),
        ensures
            res == self@.balances[(who, asset)],
    {
        self.ledger.free_balance(asset, who)
    }

    /// The hub asset that the pool's account holds, which is the sum of the
    /// hub reserves of all assets.
    pub fn hub_liquidity(&self) -> (res: Balance)
        requires
            self.wf(),
        ensures
            res == self@.hub_liquidity,
            res == self@.hub_balance(),
    {
        self.ledger.free_balance(self.config.hub_asset, self.config.pool_account)
    }

    /// The record of `asset`, where the pool has one.
    pub fn asset(&self, asset: AssetId) -> (res: Option<AssetReserveState>)
        requires
            self.wf(),
        ensures
            res == (if self@.assets.dom().contains(asset) {
                Some(self@.assets[asset])
            } else {
                None
            }),
    {
        self.assets.get(asset as u128)
    }

    /// The record of `asset`, or `AssetNotFound`.
    pub fn load_asset_state(&self, asset: AssetId) -> (res: Result<AssetReserveState, Error>)
        requires
            self.wf(),
        ensures
            res == load_outcome(self@, asset),
    {
        match self.assets.get(asset as u128) {
            Some(s) => Ok(s),
            None => Err(Error::AssetNotFound),
        }
    }

    /// The position `id`, where there is one.
    pub fn position(&self, id: PositionId) -> (res: Option<Position>)
        requires
            self.wf(),
        ensures
            res == (if self@.positions.dom().contains(id) {
                Some(self@.positions[id])
            } else {
                None
            }),
    {
        self.positions.get(id as u128)
    }
}

/// Putting a record under an asset's key puts it under the asset.
pub proof fn lemma_assets_of_insert(t: Map<u128, AssetReserveState>, id: AssetId, state: AssetReserveState)
    ensures
        assets_of(t.insert(id as u128, state)) == assets_of(t).insert(id, state),
{
    assert(assets_of(t.insert(id as u128, state)) =~= assets_of(t).insert(id, state));
}

/// Putting a position under an identifier's key puts it under the identifier.
pub proof fn lemma_positions_of_insert(t: Map<u128, Position>, id: PositionId, position: Position)
    ensures
        positions_of(t.insert(id as u128, position)) == positions_of(t).insert(id, position),
{
    assert(positions_of(t.insert(id as u128, position)) =~= positions_of(t).insert(id, position));
}

impl Omnipool {
    /// Writes the record of an asset; the balances are left for the caller to
    /// bring into line.
    fn put_asset(&mut self, id: AssetId, state: AssetReserveState)
        requires
            old(self).tables_wf(),
        ensures
            final(self).tables_wf(),
            final(self)@ == (PoolState {
                assets: old(self)@.assets.insert(id, state),
                hub_liquidity: hub_liquidity_with(old(self)@, id, state),
                ..old(self)@
            }),
            old(self)@.assets.dom().contains(id) ==> old(self)@.assets[id].hub_reserve <= old(
                self,
            )@.hub_liquidity,
    {
        proof {
            let s = self.assets.entries();
            lemma_assets_of_insert(self.assets@, id, state);
            if has_key(s, id as u128) {
                let i = position_of(s, id as u128);
                lemma_position_unique(s, i);
                lemma_hub_sum_update(s, i, (id as u128, state));
                lemma_hub_sum_bounds(s, i);
            } else {
                lemma_hub_sum_push(s, (id as u128, state));
            }
        }
        self.assets.set(id as u128, state);
    }

    /// Writes a position.
    fn put_position(&mut self, id: PositionId, position: Position)
        requires
            old(self).tables_wf(),
        ensures
            final(self).tables_wf(),
            final(self)@ == (PoolState {
                positions: old(self)@.positions.insert(id, position),
                ..old(self)@
            }),
    {
        proof {
            lemma_positions_of_insert(self.positions@, id, position);
        }
        self.positions.set(id as u128, position);
    }

    /// Puts `amount` of `asset` on the account of `who`, out of nothing.
    ///
    /// Hub asset cannot be put on the pool's own account: what that account
    /// holds of it changes only as the hub reserves do.
    pub fn deposit(&mut self, asset: AssetId, who: AccountId, amount: Balance) -> (res: Result<(), Error>)
        requires
            old(self).wf(),
        ensures
            final(self).wf(),
            match res {
                Ok(_) => deposit_outcome(old(self)@, asset, who, amount) == Ok::<PoolState, Error>(
                    final(self)@,
                ),
                Err(e) => deposit_outcome(old(self)@, asset, who, amount) == Err::<PoolState, Error>(e)
                    && *final(self) == *old(self),
            },
    {
        if who == self.config.pool_account && asset == self.config.hub_asset {
            return Err(Error::NotAllowed);
        }
        match self.ledger.mint_into(asset, who, amount) {
            Ok(_) => Ok(()),
            Err(e) => Err(e),
        }
    }

    /// Replaces the flags of `asset` by `flags`.
    ///
    /// The caller answers for the right to do so. The hub asset has no flags.
    pub fn set_asset_tradable_state(&mut self, asset: AssetId, flags: Tradability) -> (res: Result<
        (),
        Error,
    >)
        requires
            old(self).wf(),
        ensures
            final(self).wf(),
            match res {
                Ok(_) => set_tradable_outcome(old(self)@, asset, flags) == Ok::<PoolState, Error>(
                    final(self)@,
                ),
                Err(e) => set_tradable_outcome(old(self)@, asset, flags) == Err::<PoolState, Error>(e)
                    && *final(self) == *old(self),
            },
    {
        let state = match self.assets.get(asset as u128) {
            Some(s) => s,
            None => { return Err(Error::AssetNotFound); },
        };
        let updated = AssetReserveState {
            reserve: state.reserve,
            hub_reserve: state.hub_reserve,
            shares: state.shares,
            protocol_shares: state.protocol_shares,
            cap: state.cap,
            tradable: flags,
        };
        self.put_asset(asset, updated);
        Ok(())
    }

    /// Adds `asset` to the pool. Its reserve is what the pool's account holds
    /// of it; its hub reserve is that amount at `initial_price`, minted to the
    /// pool; `position_owner` receives a position over all its shares.
    ///
    /// `registered` is the registry's answer to whether the asset exists.
    /// Returns the identifier of the position.
    pub fn add_token(
        &mut self,
        asset: AssetId,
        initial_price: FixedU128,
        weight_cap: Permill,
        position_owner: AccountId,
        registered: bool,
    ) -> (res: Result<PositionId, Error>)
        requires
            old(self).wf(),
        ensures
            final(self).wf(),
            match res {
                Ok(id) => add_token_outcome(
                    old(self)@,
                    asset,
                    initial_price,
                    weight_cap,
                    position_owner,
                    registered,
                ) == Ok::<PoolState, Error>(final(self)@) && id == old(self)@.next_position_id,
                Err(e) => add_token_outcome(
                    old(self)@,
                    asset,
                    initial_price,
                    weight_cap,
                    position_owner,
                    registered,
                ) == Err::<PoolState, Error>(e) && *final(self) == *old(self),
            },
    {
        proof {
            use_type_invariant(&weight_cap);
        }
        if asset == self.config.hub_asset {
            return Err(Error::AssetAlreadyAdded);
        }
        if self.assets.get(asset as u128).is_some() {
            return Err(Error::AssetAlreadyAdded);
        }
        if !registered {
            return Err(Error::AssetNotRegistered);
        }
        let amount = self.ledger.free_balance(asset, self.config.pool_account);
        if amount == 0 || amount < self.config.min_pool_liquidity {
            return Err(Error::InsufficientLiquidity);
        }
        let hub = match initial_price.checked_mul_int(amount) {
            Some(h) => h,
            None => { return Err(Error::Overflow); },
        };
        if hub == 0 {
            return Err(Error::InvalidInitialAssetPrice);
        }
        if self.next_position_id == u64::MAX {
            return Err(Error::Overflow);
        }
        match self.ledger.mint_into(self.config.hub_asset, self.config.pool_account, hub) {
            Ok(_) => {},
            Err(e) => { return Err(e); },
        }
        let id = self.next_position_id;
        self.put_asset(asset, initial_state(amount, hub, weight_cap));
        self.put_position(id, initial_position(position_owner, asset, amount, hub));
        self.next_position_id = id + 1;
        Ok(id)
    }
}

fn initial_state(amount: Balance, hub: Balance, weight_cap: Permill) -> (res: AssetReserveState)
    ensures
        res == initial_state_spec(amount, hub, weight_cap),
{
    AssetReserveState {
        reserve: amount,
        hub_reserve: hub,
        shares: amount,
        protocol_shares: 0,
        cap: weight_cap,
        tradable: Tradability::all(),
    }
}

fn initial_position(owner: AccountId, asset: AssetId, amount: Balance, hub: Balance) -> (res: Position)
    ensures
        res == position_spec(owner, asset, amount, amount, hub, amount),
{
    Position { owner, asset_id: asset, amount, shares: amount, price_hub_reserve: hub, price_reserve: amount }
}

impl Omnipool {
    fn report(who: AccountId, asset_in: AssetId, asset_out: AssetId, c: &TradeStateChange) -> (res: TradeExecuted)
        ensures
            res == trade_report(who, asset_in, asset_out, *c),
    {
        TradeExecuted {
            who,
            asset_in,
            asset_out,
            amount_in: c.asset_in.amount_in,
            amount_out: c.asset_out.amount_out,
            hub_amount_in: c.asset_in.delta_hub_reserve,
            hub_amount_out: c.asset_out.delta_hub_reserve,
            asset_fee_amount: c.asset_out.asset_fee,
            protocol_fee_amount: c.asset_in.protocol_fee,
        }
    }

    fn hub_report(who: AccountId, hub_asset: AssetId, asset_out: AssetId, c: &AssetOutChange) -> (res:
        TradeExecuted)
        ensures
            res == hub_trade_report(who, hub_asset, asset_out, *c),
    {
        TradeExecuted {
            who,
            asset_in: hub_asset,
            asset_out,
            amount_in: c.delta_hub_reserve,
            amount_out: c.amount_out,
            hub_amount_in: 0,
            hub_amount_out: 0,
            asset_fee_amount: c.asset_fee,
            protocol_fee_amount: 0,
        }
    }

    /// Writes a trade between two assets to the records and the ledger, all
    /// of it or nothing.
    fn commit_trade(&mut self, who: AccountId, asset_in: AssetId, asset_out: AssetId, c: &TradeStateChange) -> (res:
        Result<(), Error>)
        requires
            old(self).wf(),
            asset_in != asset_out,
            old(self)@.assets.dom().contains(asset_in),
            old(self)@.assets.dom().contains(asset_out),
            trade_change_bounded(old(self)@.assets[asset_in], old(self)@.assets[asset_out], *c),
        ensures
            final(self).wf(),
            match res {
                Ok(_) => trade_committed(old(self)@, who, asset_in, asset_out, *c) == Ok::<
                    PoolState,
                    Error,
                >(final(self)@),
                Err(e) => trade_committed(old(self)@, who, asset_in, asset_out, *c) == Err::<
                    PoolState,
                    Error,
                >(e) && *final(self) == *old(self),
            },
    {
        let pool = self.config.pool_account;
        let hub = self.config.hub_asset;
        let in_state = match self.assets.get(asset_in as u128) {
            Some(s) => s,
            None => { return Err(Error::AssetNotFound); },
        };
        let out_state = match self.assets.get(asset_out as u128) {
            Some(s) => s,
            None => { return Err(Error::AssetNotFound); },
        };
        let new_in = match apply_in(&in_state, &c.asset_in) {
            Some(s) => s,
            None => { return Err(Error::Overflow); },
        };
        let new_out = match apply_out(&out_state, &c.asset_out) {
            Some(s) => s,
            None => { return Err(Error::Overflow); },
        };
        let mut ledger = self.ledger.duplicate();
        match ledger.transfer(asset_in, who, pool, c.asset_in.amount_in) {
            Ok(_) => {},
            Err(e) => { return Err(e); },
        }
        match ledger.transfer(asset_out, pool, who, c.asset_out.amount_out) {
            Ok(_) => {},
            Err(e) => { return Err(e); },
        }
        match ledger.transfer(asset_out, pool, self.config.fee_collector, c.asset_out.fee_withdrawn) {
            Ok(_) => {},
            Err(e) => { return Err(e); },
        }
        match ledger.burn_from(hub, pool, c.asset_in.burned_protocol_fee) {
            Ok(_) => {},
            Err(e) => { return Err(e); },
        }
        match ledger.transfer(
            hub,
            pool,
            self.config.protocol_fee_collector,
            c.asset_in.protocol_fee - c.asset_in.burned_protocol_fee,
        ) {
            Ok(_) => {},
            Err(e) => { return Err(e); },
        }
        match ledger.mint_into(hub, pool, c.asset_out.extra_hub_reserve) {
            Ok(_) => {},
            Err(e) => { return Err(e); },
        }
        self.put_asset(asset_in, new_in);
        self.put_asset(asset_out, new_out);
        self.ledger = ledger;
        Ok(())
    }

    /// Writes a trade of hub asset for an asset to the record and the ledger,
    /// all of it or nothing.
    fn commit_hub_trade(&mut self, who: AccountId, asset_out: AssetId, c: &AssetOutChange) -> (res: Result<
        (),
        Error,
    >)
        requires
            old(self).wf(),
            who != old(self)@.config.pool_account,
            old(self)@.assets.dom().contains(asset_out),
        ensures
            final(self).wf(),
            match res {
                Ok(_) => hub_trade_committed(old(self)@, who, asset_out, *c) == Ok::<PoolState, Error>(
                    final(self)@,
                ),
                Err(e) => hub_trade_committed(old(self)@, who, asset_out, *c) == Err::<PoolState, Error>(
                    e,
                ) && *final(self) == *old(self),
            },
    {
        let pool = self.config.pool_account;
        let hub = self.config.hub_asset;
        let out_state = match self.assets.get(asset_out as u128) {
            Some(s) => s,
            None => { return Err(Error::AssetNotFound); },
        };
        let new_out = match apply_out(&out_state, c) {
            Some(s) => s,
            None => { return Err(Error::Overflow); },
        };
        let mut ledger = self.ledger.duplicate();
        match ledger.transfer(hub, who, pool, c.delta_hub_reserve) {
            Ok(_) => {},
            Err(e) => { return Err(e); },
        }
        match ledger.transfer(asset_out, pool, who, c.amount_out) {
            Ok(_) => {},
            Err(e) => { return Err(e); },
        }
        match ledger.transfer(asset_out, pool, self.config.fee_collector, c.fee_withdrawn) {
            Ok(_) => {},
            Err(e) => { return Err(e); },
        }
        match ledger.mint_into(hub, pool, c.extra_hub_reserve) {
            Ok(_) => {},
            Err(e) => { return Err(e); },
        }
        self.put_asset(asset_out, new_out);
        self.ledger = ledger;
        Ok(())
    }

    /// Sells `amount` of hub asset for `asset_out`.
    fn sell_hub_asset(&mut self, who: AccountId, asset_out: AssetId, amount: Balance, min_buy_amount: Balance) -> (res:
        Result<TradeExecuted, Error>)
        requires
            old(self).wf(),
        ensures
            final(self).wf(),
            match res {
                Ok(v) => sell_hub_outcome(old(self)@, who, asset_out, amount, min_buy_amount) == Ok::<
                    PoolState,
                    Error,
                >(final(self)@) && sell_report(
                    old(self)@,
                    who,
                    old(self)@.config.hub_asset,
                    asset_out,
                    amount,
                ) == Some(v),
                Err(e) => sell_hub_outcome(old(self)@, who, asset_out, amount, min_buy_amount) == Err::<
                    PoolState,
                    Error,
                >(e) && *final(self) == *old(self),
            },
    {
        let o = match self.assets.get(asset_out as u128) {
            Some(s) => s,
            None => { return Err(Error::AssetNotFound); },
        };
        if !o.can_buy() || who == self.config.pool_account {
            return Err(Error::NotAllowed);
        }
        if self.config.max_in_ratio == 0 {
            return Err(Error::DivisionByZero);
        }
        if amount > o.hub_reserve / self.config.max_in_ratio {
            return Err(Error::MaxInRatioExceeded);
        }
        let c = match calculate_sell_hub_state_changes(
            &o,
            amount,
            self.config.asset_fee,
            self.config.on_trade_withdrawal,
        ) {
            Some(c) => c,
            None => { return Err(Error::Overflow); },
        };
        if c.amount_out < min_buy_amount {
            return Err(Error::BuyLimitNotReached);
        }
        if self.config.max_out_ratio == 0 {
            return Err(Error::DivisionByZero);
        }
        if c.amount_out > o.reserve / self.config.max_out_ratio {
            return Err(Error::MaxOutRatioExceeded);
        }
        match self.commit_hub_trade(who, asset_out, &c) {
            Ok(_) => Ok(Self::hub_report(who, self.config.hub_asset, asset_out, &c)),
            Err(e) => Err(e),
        }
    }

    /// Sells `amount` of `asset_in` for `asset_out` on behalf of `who`, who
    /// must receive at least `min_buy_amount`. Returns the report of the trade.
    ///
    /// The hub asset can be sold but not bought. On success the records of
    /// both assets and the balances of the trader, the pool and the
    /// collectors change as [`sell_outcome`] says; on refusal nothing
    /// changes.
    pub fn sell(
        &mut self,
        who: AccountId,
        asset_in: AssetId,
        asset_out: AssetId,
        amount: Balance,
        min_buy_amount: Balance,
    ) -> (res: Result<TradeExecuted, Error>)
        requires
            old(self).wf(),
        ensures
            final(self).wf(),
            final(self)@.conserved(),
            match res {
                Ok(v) => sell_outcome(old(self)@, who, asset_in, asset_out, amount, min_buy_amount)
                    == Ok::<PoolState, Error>(final(self)@) && sell_report(
                    old(self)@,
                    who,
                    asset_in,
                    asset_out,
                    amount,
                ) == Some(v),
                Err(e) => sell_outcome(old(self)@, who, asset_in, asset_out, amount, min_buy_amount)
                    == Err::<PoolState, Error>(e) && *final(self) == *old(self),
            },
    {
        if asset_in == asset_out {
            return Err(Error::SameAssetTradeNotAllowed);
        }
        if amount < self.config.min_trading_amount {
            return Err(Error::InsufficientTradingAmount);
        }
        if self.ledger.free_balance(asset_in, who) < amount {
            return Err(Error::InsufficientBalance);
        }
        if asset_in == self.config.hub_asset {
            return self.sell_hub_asset(who, asset_out, amount, min_buy_amount);
        }
        if asset_out == self.config.hub_asset {
            return Err(Error::NotAllowed);
        }
        let i = match self.assets.get(asset_in as u128) {
            Some(s) => s,
            None => { return Err(Error::AssetNotFound); },
        };
        let o = match self.assets.get(asset_out as u128) {
            Some(s) => s,
            None => { return Err(Error::AssetNotFound); },
        };
        if !i.can_sell() || !o.can_buy() {
            return Err(Error::NotAllowed);
        }
        if self.config.max_in_ratio == 0 {
            return Err(Error::DivisionByZero);
        }
        if amount > i.reserve / self.config.max_in_ratio {
            return Err(Error::MaxInRatioExceeded);
        }
        let c = match calculate_sell_state_changes(
            &i,
            &o,
            amount,
            self.config.asset_fee,
            self.config.protocol_fee,
            self.config.burn_fee,
            self.config.on_trade_withdrawal,
        ) {
            Some(c) => c,
            None => { return Err(Error::Overflow); },
        };
        if c.asset_out.amount_out < min_buy_amount {
            return Err(Error::BuyLimitNotReached);
        }
        if self.config.max_out_ratio == 0 {
            return Err(Error::DivisionByZero);
        }
        if c.asset_out.amount_out > o.reserve / self.config.max_out_ratio {
            return Err(Error::MaxOutRatioExceeded);
        }
        match self.commit_trade(who, asset_in, asset_out, &c) {
            Ok(_) => Ok(Self::report(who, asset_in, asset_out, &c)),
            Err(e) => Err(e),
        }
    }
}

impl Omnipool {
    /// Adds `amount` of `asset` as liquidity on behalf of `who`. Returns the
    /// identifier of the position that `who` receives.
    pub fn add_liquidity(&mut self, who: AccountId, asset: AssetId, amount: Balance) -> (res: Result<
        PositionId,
        Error,
    >)
        requires
            old(self).wf(),
        ensures
            final(self).wf(),
            final(self)@.conserved(),
            match res {
                Ok(id) => add_liquidity_outcome(old(self)@, who, asset, amount) == Ok::<PoolState, Error>(
                    final(self)@,
                ) && id == old(self)@.next_position_id,
                Err(e) => add_liquidity_outcome(old(self)@, who, asset, amount) == Err::<PoolState, Error>(
                    e,
                ) && *final(self) == *old(self),
            },
    {
        let pool = self.config.pool_account;
        let hub = self.config.hub_asset;
        if amount < self.config.min_pool_liquidity {
            return Err(Error::InsufficientLiquidity);
        }
        let state = match self.assets.get(asset as u128) {
            Some(s) => s,
            None => { return Err(Error::AssetNotFound); },
        };
        if !state.can_add() {
            return Err(Error::NotAllowed);
        }
        if self.ledger.free_balance(asset, who) < amount {
            return Err(Error::InsufficientBalance);
        }
        let c = match calculate_add_liquidity_state_changes(&state, amount) {
            Some(c) => c,
            None => { return Err(Error::Overflow); },
        };
        let grown = match apply_added(&state, &c) {
            Some(g) => g,
            None => { return Err(Error::Overflow); },
        };
        let total = match self.ledger.free_balance(hub, pool).checked_add(c.delta_hub_reserve) {
            Some(t) => t,
            None => { return Err(Error::Overflow); },
        };
        if self.next_position_id == u64::MAX {
            return Err(Error::Overflow);
        }
        if grown.hub_reserve > state.cap.mul_floor(total) {
            return Err(Error::AssetWeightCapExceeded);
        }
        let mut ledger = self.ledger.duplicate();
        match ledger.transfer(asset, who, pool, amount) {
            Ok(_) => {},
            Err(e) => { return Err(e); },
        }
        match ledger.mint_into(hub, pool, c.delta_hub_reserve) {
            Ok(_) => {},
            Err(e) => { return Err(e); },
        }
        let id = self.next_position_id;
        let position = Position {
            owner: who,
            asset_id: asset,
            amount,
            shares: c.delta_shares,
            price_hub_reserve: grown.hub_reserve,
            price_reserve: grown.reserve,
        };
        self.put_asset(asset, grown);
        self.put_position(id, position);
        self.next_position_id = id + 1;
        self.ledger = ledger;
        Ok(id)
    }
}

impl Omnipool {
    /// Moves `amount` of `asset` from `from` to `to`. The caller answers for
    /// the right of `from` to do so.
    pub fn transfer(&mut self, asset: AssetId, from: AccountId, to: AccountId, amount: Balance) -> (res:
        Result<(), Error>)
        requires
            old(self).wf(),
        ensures
            final(self).wf(),
            match res {
                Ok(_) => transfer_outcome(old(self)@, asset, from, to, amount) == Ok::<PoolState, Error>(
                    final(self)@,
                ),
                Err(e) => transfer_outcome(old(self)@, asset, from, to, amount) == Err::<PoolState, Error>(
                    e,
                ) && *final(self) == *old(self),
            },
    {
        if from == self.config.pool_account || (to == self.config.pool_account && asset
            == self.config.hub_asset) {
            return Err(Error::NotAllowed);
        }
        match self.ledger.transfer(asset, from, to, amount) {
            Ok(_) => Ok(()),
            Err(e) => Err(e),
        }
    }

    /// Buys `amount` of `asset_out` with hub asset.
    fn buy_asset_for_hub_asset(
        &mut self,
        who: AccountId,
        asset_out: AssetId,
        amount: Balance,
        max_sell_amount: Balance,
    ) -> (res: Result<TradeExecuted, Error>)
        requires
            old(self).wf(),
        ensures
            final(self).wf(),
            match res {
                Ok(v) => buy_with_hub_outcome(old(self)@, who, asset_out, amount, max_sell_amount) == Ok::<
                    PoolState,
                    Error,
                >(final(self)@) && buy_report(
                    old(self)@,
                    who,
                    asset_out,
                    old(self)@.config.hub_asset,
                    amount,
                ) == Some(v),
                Err(e) => buy_with_hub_outcome(old(self)@, who, asset_out, amount, max_sell_amount) == Err::<
                    PoolState,
                    Error,
                >(e) && *final(self) == *old(self),
            },
    {
        let o = match self.assets.get(asset_out as u128) {
            Some(s) => s,
            None => { return Err(Error::AssetNotFound); },
        };
        if !o.can_buy() || who == self.config.pool_account {
            return Err(Error::NotAllowed);
        }
        if self.config.max_out_ratio == 0 {
            return Err(Error::DivisionByZero);
        }
        if amount > o.reserve / self.config.max_out_ratio {
            return Err(Error::MaxOutRatioExceeded);
        }
        let c = match calculate_buy_for_hub_asset_state_changes(
            &o,
            amount,
            self.config.asset_fee,
            self.config.on_trade_withdrawal,
        ) {
            Some(c) => c,
            None => { return Err(Error::Overflow); },
        };
        if self.ledger.free_balance(self.config.hub_asset, who) < c.delta_hub_reserve {
            return Err(Error::InsufficientBalance);
        }
        if c.delta_hub_reserve > max_sell_amount {
            return Err(Error::SellLimitExceeded);
        }
        if self.config.max_in_ratio == 0 {
            return Err(Error::DivisionByZero);
        }
        if c.delta_hub_reserve > o.hub_reserve / self.config.max_in_ratio {
            return Err(Error::MaxInRatioExceeded);
        }
        match self.commit_hub_trade(who, asset_out, &c) {
            Ok(_) => Ok(Self::hub_report(who, self.config.hub_asset, asset_out, &c)),
            Err(e) => Err(e),
        }
    }

    /// Buys `amount` of `asset_out` with `asset_in` on behalf of `who`, who
    /// pays at most `max_sell_amount`. Returns the report of the trade.
    ///
    /// The hub asset can pay but cannot be bought. On success the records of
    /// both assets and the balances of the trader, the pool and the
    /// collectors change as [`buy_outcome`] says; on refusal nothing changes.
    pub fn buy(
        &mut self,
        who: AccountId,
        asset_out: AssetId,
        asset_in: AssetId,
        amount: Balance,
        max_sell_amount: Balance,
    ) -> (res: Result<TradeExecuted, Error>)
        requires
            old(self).wf(),
        ensures
            final(self).wf(),
            final(self)@.conserved(),
            match res {
                Ok(v) => buy_outcome(old(self)@, who, asset_out, asset_in, amount, max_sell_amount)
                    == Ok::<PoolState, Error>(final(self)@) && buy_report(
                    old(self)@,
                    who,
                    asset_out,
                    asset_in,
                    amount,
                ) == Some(v),
                Err(e) => buy_outcome(old(self)@, who, asset_out, asset_in, amount, max_sell_amount)
                    == Err::<PoolState, Error>(e) && *final(self) == *old(self),
            },
    {
        if asset_in == asset_out {
            return Err(Error::SameAssetTradeNotAllowed);
        }
        if amount < self.config.min_trading_amount {
            return Err(Error::InsufficientTradingAmount);
        }
        if asset_out == self.config.hub_asset {
            return Err(Error::NotAllowed);
        }
        if asset_in == self.config.hub_asset {
            return self.buy_asset_for_hub_asset(who, asset_out, amount, max_sell_amount);
        }
        let i = match self.assets.get(asset_in as u128) {
            Some(s) => s,
            None => { return Err(Error::AssetNotFound); },
        };
        let o = match self.assets.get(asset_out as u128) {
            Some(s) => s,
            None => { return Err(Error::AssetNotFound); },
        };
        if !i.can_sell() || !o.can_buy() {
            return Err(Error::NotAllowed);
        }
        if self.config.max_out_ratio == 0 {
            return Err(Error::DivisionByZero);
        }
        if amount > o.reserve / self.config.max_out_ratio {
            return Err(Error::MaxOutRatioExceeded);
        }
        let c = match calculate_buy_state_changes(
            &i,
            &o,
            amount,
            self.config.asset_fee,
            self.config.protocol_fee,
            self.config.burn_fee,
            self.config.on_trade_withdrawal,
        ) {
            Some(c) => c,
            None => { return Err(Error::Overflow); },
        };
        if self.ledger.free_balance(asset_in, who) < c.asset_in.amount_in {
            return Err(Error::InsufficientBalance);
        }
        if c.asset_in.amount_in > max_sell_amount {
            return Err(Error::SellLimitExceeded);
        }
        if self.config.max_in_ratio == 0 {
            return Err(Error::DivisionByZero);
        }
        if c.asset_in.amount_in > i.reserve / self.config.max_in_ratio {
            return Err(Error::MaxInRatioExceeded);
        }
        match self.commit_trade(who, asset_in, asset_out, &c) {
            Ok(_) => Ok(Self::report(who, asset_in, asset_out, &c)),
            Err(e) => Err(e),
        }
    }
}

impl Omnipool {
    /// Whether the price of `state` is near enough to the price at which
    /// `position` was opened.
    fn price_check(state: &AssetReserveState, position: &Position, tolerance: Permill) -> (res: Option<bool>)
        ensures
            res == price_within_tolerance(*state, *position, tolerance),
    {
        let opened = match position.price() {
            Some(p) => p.into_inner(),
            None => { return None; },
        };
        let now = match state.price() {
            Some(p) => p.into_inner(),
            None => { return None; },
        };
        let moved_by = if opened >= now {
            opened - now
        } else {
            now - opened
        };
        Some(moved_by <= tolerance.mul_floor(opened))
    }

    /// Withdraws `shares` of the position `id` on behalf of `who`. Returns
    /// the amount of the asset that `who` received.
    pub fn remove_liquidity(&mut self, who: AccountId, id: PositionId, shares: Balance) -> (res: Result<
        Balance,
        Error,
    >)
        requires
            old(self).wf(),
        ensures
            final(self).wf(),
            final(self)@.conserved(),
            match res {
                Ok(v) => remove_liquidity_outcome(old(self)@, who, id, shares) == Ok::<PoolState, Error>(
                    final(self)@,
                ) && remove_quote(old(self)@, id, shares) == Some(v),
                Err(e) => remove_liquidity_outcome(old(self)@, who, id, shares) == Err::<PoolState, Error>(
                    e,
                ) && *final(self) == *old(self),
            },
    {
        let pool = self.config.pool_account;
        let hub = self.config.hub_asset;
        let p = match self.positions.get(id as u128) {
            Some(p) => p,
            None => { return Err(Error::PositionNotFound); },
        };
        if p.owner != who {
            return Err(Error::Forbidden);
        }
        if shares == 0 || shares > p.shares {
            return Err(Error::InsufficientShares);
        }
        let state = match self.assets.get(p.asset_id as u128) {
            Some(s) => s,
            None => { return Err(Error::AssetNotFound); },
        };
        if !state.can_remove() {
            return Err(Error::NotAllowed);
        }
        match Self::price_check(&state, &p, self.config.price_tolerance) {
            None => { return Err(Error::Overflow); },
            Some(within) => {
                if !within {
                    return Err(Error::PriceDifferenceTooHigh);
                }
            },
        }
        let c = match calculate_remove_liquidity_state_changes(&state, shares) {
            Some(c) => c,
            None => { return Err(Error::Overflow); },
        };
        if self.config.max_out_ratio == 0 {
            return Err(Error::DivisionByZero);
        }
        if c.delta_reserve > state.reserve / self.config.max_out_ratio {
            return Err(Error::MaxOutRatioExceeded);
        }
        let shrunk = match apply_removed(&state, &c) {
            Some(s) => s,
            None => { return Err(Error::InsufficientShares); },
        };
        let taken = mul_div_part(p.amount, shares, p.shares);
        let mut ledger = self.ledger.duplicate();
        match ledger.transfer(p.asset_id, pool, who, c.delta_reserve) {
            Ok(_) => {},
            Err(e) => { return Err(e); },
        }
        match ledger.burn_from(hub, pool, c.delta_hub_reserve) {
            Ok(_) => {},
            Err(e) => { return Err(e); },
        }
        let position = Position {
            owner: p.owner,
            asset_id: p.asset_id,
            amount: p.amount - taken,
            shares: p.shares - shares,
            price_hub_reserve: p.price_hub_reserve,
            price_reserve: p.price_reserve,
        };
        self.put_asset(p.asset_id, shrunk);
        self.put_position(id, position);
        self.ledger = ledger;
        Ok(c.delta_reserve)
    }
}

impl Omnipool {
    /// The records of all assets of the pool, each asset once, in the order
    /// in which the assets were added. Their hub reserves add up to the hub
    /// liquidity of the pool, which is what the pool's account holds of hub
    /// asset.
    pub fn assets(&self) -> (res: Vec<(AssetId, AssetReserveState)>)
        requires
            self.wf(),
        ensures
            forall|i: int|
                0 <= i < res.len() ==> self@.assets.dom().contains((#[trigger] res[i]).0)
                    && self@.assets[res[i].0] == res[i].1,
            forall|id: AssetId| #[trigger]
                self@.assets.dom().contains(id) ==> exists|i: int|
                    0 <= i < res.len() && (#[trigger] res[i]).0 == id,
            forall|i: int, j: int|
                0 <= i < j < res.len() ==> (#[trigger] res[i]).0 != (#[trigger] res[j]).0,
            sum_of_hub_reserves(res@) == self@.hub_liquidity,
            sum_of_hub_reserves(res@) == self@.hub_balance(),
    {
        let mut res: Vec<(AssetId, AssetReserveState)> = Vec::new();
        let mut i: usize = 0;
        let ghost entries = self.assets.entries();
        while i < self.assets.len()
            invariant
                i <= entries.len(),
                entries == self.assets.entries(),
                self.tables_wf(),
                res.len() == i,
                forall|j: int|
                    0 <= j < i ==> (#[trigger] res[j]).0 == entries[j].0 && res[j].1 == entries[j].1,
                sum_of_hub_reserves(res@) == hub_sum(entries.subrange(0, i as int)),
            decreases entries.len() - i,
        {
            let e = self.assets.entry(i);
            proof {
                assert(entries.subrange(0, i + 1).drop_last() =~= entries.subrange(0, i as int));
                assert(res@.push((e.0 as u32, e.1)).drop_last() =~= res@);
            }
            res.push((e.0 as u32, e.1));
            i = i + 1;
        }
        proof {
            assert(entries.subrange(0, i as int) =~= entries);
            assert forall|j: int| 0 <= j < res.len() implies self@.assets.dom().contains(
                (#[trigger] res[j]).0,
            ) && self@.assets[res[j].0] == res[j].1 by {
                lemma_position_unique(entries, j);
            }
            assert forall|id: AssetId| #[trigger] self@.assets.dom().contains(id) implies exists|j: int|
                0 <= j < res.len() && (#[trigger] res[j]).0 == id by {
                let p = position_of(entries, id as u128);
                assert(has_key(entries, id as u128));
                assert(0 <= p < res.len() && res[p].0 == id);
            }
            assert forall|a: int, b: int| 0 <= a < b < res.len() implies (#[trigger] res[a]).0 != (
            #[trigger] res[b]).0 by {
                assert(entries[a].0 != entries[b].0);
            }
        }
        res
    }
}

} // verus!
