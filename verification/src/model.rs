//! The mathematical model of a pool, and what each operation leads to.
//!
//! An operation is described by a function from the state before it to
//! either the state after it or the reason for refusing it. The checks are
//! made in the order in which the function lists them, so the reason given
//! is the first that applies.

use vstd::prelude::*;
use crate::arith::{mul_div_floor, Balance, FixedU128, Permill};
use crate::error::Error;
use crate::ledger::{credited, debited, moved, Balances};
use crate::math::{
    add_liquidity_spec, after_added, after_in, after_out, after_removed, buy_out_spec, buy_spec,
    remove_liquidity_spec, sell_out_spec, sell_spec, AssetOutChange, TradeStateChange,
};
use crate::state::{AccountId, AssetId, AssetReserveState, Position, PositionId};
use crate::tradability::Tradability;

verus! {

/// What a pool is set up with. Nothing in it changes while the pool lives.
#[derive(Clone, Copy, Debug, PartialEq, Eq, Structural)]
pub struct Config {
    /// The hub asset, against which every asset of the pool trades.
    pub hub_asset: AssetId,
    /// The account that holds what the pool holds.
    pub pool_account: AccountId,
    /// The account that receives the withdrawn part of asset fees.
    pub fee_collector: AccountId,
    /// The account that receives protocol fees, as far as they are not
    /// destroyed.
    pub protocol_fee_collector: AccountId,
    /// Fraction withheld from what a trade pays out.
    pub asset_fee: Permill,
    /// Fraction skimmed from the hub asset that a trade routes on.
    pub protocol_fee: Permill,
    /// Fraction of the protocol fee that is destroyed.
    pub burn_fee: Permill,
    /// Fraction of the asset fee that leaves the pool.
    pub on_trade_withdrawal: Permill,
    /// Least amount that may be traded.
    pub min_trading_amount: Balance,
    /// Least amount of liquidity that may be added.
    pub min_pool_liquidity: Balance,
    /// A trade may bring in at most the reserve divided by this number.
    pub max_in_ratio: Balance,
    /// A trade may take out at most the reserve divided by this number.
    pub max_out_ratio: Balance,
    /// How far, as a fraction of the price at which a position was opened,
    /// the price may have moved when liquidity is withdrawn.
    pub price_tolerance: Permill,
}

impl Config {
    /// The collectors are accounts of their own, and the fractions are
    /// fractions.
    pub open spec fn valid(self) -> bool {
        &&& self.fee_collector != self.pool_account
        &&& self.protocol_fee_collector != self.pool_account
        &&& self.asset_fee.in_range()
        &&& self.protocol_fee.in_range()
        &&& self.burn_fee.in_range()
        &&& self.on_trade_withdrawal.in_range()
        &&& self.price_tolerance.in_range()
    }

    /// Whether the configuration can be used for a pool.
    pub fn is_valid(&self) -> (res: bool)
        ensures
            res == self.valid(),
    {
        proof {
            use_type_invariant(&self.asset_fee);
            use_type_invariant(&self.protocol_fee);
            use_type_invariant(&self.burn_fee);
            use_type_invariant(&self.on_trade_withdrawal);
            use_type_invariant(&self.price_tolerance);
        }
        self.fee_collector != self.pool_account && self.protocol_fee_collector != self.pool_account
    }
}

/// The mathematical model of a pool.
pub struct PoolState {
    /// The configuration.
    pub config: Config,
    /// The record of each asset of the pool.
    pub assets: Map<AssetId, AssetReserveState>,
    /// The sum of the hub reserves of all assets.
    pub hub_liquidity: nat,
    /// The balances of the ledger.
    pub balances: Balances,
    /// The positions of the liquidity providers.
    pub positions: Map<PositionId, Position>,
    /// The identifier that the next position gets.
    pub next_position_id: PositionId,
}

impl PoolState {
    /// What the pool's account holds of hub asset.
    pub open spec fn hub_balance(self) -> nat {
        self.balances[(self.config.pool_account, self.config.hub_asset)] as nat
    }

    /// Conservation: the hub reserves of the assets add up to what the pool's
    /// account holds of hub asset.
    pub open spec fn conserved(self) -> bool {
        self.hub_liquidity == self.hub_balance()
    }

    /// The invariant of a pool.
    pub open spec fn wf(self) -> bool {
        &&& self.config.valid()
        &&& self.conserved()
        &&& !self.assets.dom().contains(self.config.hub_asset)
        &&& forall|id: AssetId| #[trigger] self.assets.dom().contains(id) ==> self.assets[id].wf()
        &&& forall|id: PositionId| #[trigger]
            self.positions.dom().contains(id) ==> id < self.next_position_id
    }
}

/// What loading the record of `asset` gives.
pub open spec fn load_outcome(s: PoolState, asset: AssetId) -> Result<AssetReserveState, Error> {
    if s.assets.dom().contains(asset) {
        Ok(s.assets[asset])
    } else {
        Err(Error::AssetNotFound)
    }
}

/// The sum of hub reserves once the record of `id` is `state`.
pub open spec fn hub_liquidity_with(s: PoolState, id: AssetId, state: AssetReserveState) -> nat {
    if s.assets.dom().contains(id) {
        (s.hub_liquidity - s.assets[id].hub_reserve + state.hub_reserve) as nat
    } else {
        s.hub_liquidity + state.hub_reserve as nat
    }
}

/// The record of an asset that enters the pool with `amount` and `hub`.
pub open spec fn initial_state_spec(amount: Balance, hub: Balance, weight_cap: Permill) -> AssetReserveState {
    AssetReserveState {
        reserve: amount,
        hub_reserve: hub,
        shares: amount,
        protocol_shares: 0,
        cap: weight_cap,
        tradable: Tradability { sell: true, buy: true, add_liquidity: true, remove_liquidity: true },
    }
}

/// The position over `shares` of `asset`, opened at the price `hub / amount`.
pub open spec fn position_spec(
    owner: AccountId,
    asset: AssetId,
    amount: Balance,
    shares: Balance,
    hub_reserve: Balance,
    reserve: Balance,
) -> Position {
    Position { owner, asset_id: asset, amount, shares, price_hub_reserve: hub_reserve, price_reserve: reserve }
}

/// What putting `amount` of `asset` on the account of `who` leads to.
pub open spec fn deposit_outcome(s: PoolState, asset: AssetId, who: AccountId, amount: Balance) -> Result<
    PoolState,
    Error,
> {
    if who == s.config.pool_account && asset == s.config.hub_asset {
        Err(Error::NotAllowed)
    } else {
        match credited(s.balances, who, asset, amount as nat) {
            Err(e) => Err(e),
            Ok(b) => Ok(PoolState { balances: b, ..s }),
        }
    }
}

/// What replacing the flags of `asset` leads to.
pub open spec fn set_tradable_outcome(s: PoolState, asset: AssetId, flags: Tradability) -> Result<
    PoolState,
    Error,
> {
    if !s.assets.dom().contains(asset) {
        Err(Error::AssetNotFound)
    } else {
        Ok(
            PoolState {
                assets: s.assets.insert(asset, AssetReserveState { tradable: flags, ..s.assets[asset] }),
                ..s
            },
        )
    }
}

/// What adding `asset` to the pool leads to.
pub open spec fn add_token_outcome(
    s: PoolState,
    asset: AssetId,
    initial_price: FixedU128,
    weight_cap: Permill,
    position_owner: AccountId,
    registered: bool,
) -> Result<PoolState, Error> {
    let amount = s.balances[(s.config.pool_account, asset)];
    if asset == s.config.hub_asset || s.assets.dom().contains(asset) {
        Err(Error::AssetAlreadyAdded)
    } else if !registered {
        Err(Error::AssetNotRegistered)
    } else if amount == 0 || amount < s.config.min_pool_liquidity {
        Err(Error::InsufficientLiquidity)
    } else {
        match mul_div_floor(initial_price.inner as nat, amount as nat, 1_000_000_000_000_000_000) {
            None => Err(Error::Overflow),
            Some(hub) => if hub == 0 {
                Err(Error::InvalidInitialAssetPrice)
            } else if s.next_position_id == u64::MAX {
                Err(Error::Overflow)
            } else {
                match credited(s.balances, s.config.pool_account, s.config.hub_asset, hub as nat) {
                    Err(e) => Err(e),
                    Ok(b) => Ok(
                        PoolState {
                            assets: s.assets.insert(asset, initial_state_spec(amount, hub, weight_cap)),
                            hub_liquidity: s.hub_liquidity + hub as nat,
                            balances: b,
                            positions: s.positions.insert(
                                s.next_position_id,
                                position_spec(position_owner, asset, amount, amount, hub, amount),
                            ),
                            next_position_id: (s.next_position_id + 1) as PositionId,
                            ..s
                        },
                    ),
                }
            },
        }
    }
}

/// A further move on balances that may already have failed.
pub open spec fn and_moved(
    r: Result<Balances, Error>,
    asset: AssetId,
    from: AccountId,
    to: AccountId,
    amount: nat,
) -> Result<Balances, Error> {
    match r {
        Err(e) => Err(e),
        Ok(m) => moved(m, asset, from, to, amount),
    }
}

/// A further taking from balances that may already have failed.
pub open spec fn and_debited(r: Result<Balances, Error>, who: AccountId, asset: AssetId, amount: nat) -> Result<
    Balances,
    Error,
> {
    match r {
        Err(e) => Err(e),
        Ok(m) => debited(m, who, asset, amount),
    }
}

/// A further giving to balances that may already have failed.
pub open spec fn and_credited(r: Result<Balances, Error>, who: AccountId, asset: AssetId, amount: nat) -> Result<
    Balances,
    Error,
> {
    match r {
        Err(e) => Err(e),
        Ok(m) => credited(m, who, asset, amount),
    }
}

/// What a trade between two assets moves on the ledger, in this order: the
/// trader pays the pool; the pool pays the trader and the fee collector; of
/// the protocol fee the burnt part is destroyed and the rest goes to its
/// collector; the hub asset for the fee that stays is minted to the pool.
pub open spec fn trade_moves(
    b: Balances,
    cfg: Config,
    who: AccountId,
    asset_in: AssetId,
    asset_out: AssetId,
    c: TradeStateChange,
) -> Result<Balances, Error> {
    let pool = cfg.pool_account;
    let hub = cfg.hub_asset;
    let r1 = moved(b, asset_in, who, pool, c.asset_in.amount_in as nat);
    let r2 = and_moved(r1, asset_out, pool, who, c.asset_out.amount_out as nat);
    let r3 = and_moved(r2, asset_out, pool, cfg.fee_collector, c.asset_out.fee_withdrawn as nat);
    let r4 = and_debited(r3, pool, hub, c.asset_in.burned_protocol_fee as nat);
    let r5 = and_moved(
        r4,
        hub,
        pool,
        cfg.protocol_fee_collector,
        (c.asset_in.protocol_fee - c.asset_in.burned_protocol_fee) as nat,
    );
    and_credited(r5, pool, hub, c.asset_out.extra_hub_reserve as nat)
}

/// What a trade of hub asset for an asset moves on the ledger: the trader
/// pays hub asset to the pool; the pool pays the trader and the fee
/// collector; the hub asset for the fee that stays is minted to the pool.
pub open spec fn hub_trade_moves(
    b: Balances,
    cfg: Config,
    who: AccountId,
    asset_out: AssetId,
    c: AssetOutChange,
) -> Result<Balances, Error> {
    let pool = cfg.pool_account;
    let hub = cfg.hub_asset;
    let r1 = moved(b, hub, who, pool, c.delta_hub_reserve as nat);
    let r2 = and_moved(r1, asset_out, pool, who, c.amount_out as nat);
    let r3 = and_moved(r2, asset_out, pool, cfg.fee_collector, c.fee_withdrawn as nat);
    and_credited(r3, pool, hub, c.extra_hub_reserve as nat)
}

/// The pool after the trade `c` between two of its assets.
pub open spec fn trade_committed(
    s: PoolState,
    who: AccountId,
    asset_in: AssetId,
    asset_out: AssetId,
    c: TradeStateChange,
) -> Result<PoolState, Error> {
    match (after_in(s.assets[asset_in], c.asset_in), after_out(s.assets[asset_out], c.asset_out)) {
        (Some(ni), Some(no)) => match trade_moves(s.balances, s.config, who, asset_in, asset_out, c) {
            Err(e) => Err(e),
            Ok(b) => Ok(
                PoolState {
                    assets: s.assets.insert(asset_in, ni).insert(asset_out, no),
                    hub_liquidity: (s.hub_liquidity - c.asset_in.delta_hub_reserve
                        + c.asset_out.delta_hub_reserve + c.asset_out.extra_hub_reserve) as nat,
                    balances: b,
                    ..s
                },
            ),
        },
        _ => Err(Error::Overflow),
    }
}

/// The pool after the trade `c` of hub asset for one of its assets.
pub open spec fn hub_trade_committed(s: PoolState, who: AccountId, asset_out: AssetId, c: AssetOutChange) -> Result<
    PoolState,
    Error,
> {
    match after_out(s.assets[asset_out], c) {
        Some(no) => match hub_trade_moves(s.balances, s.config, who, asset_out, c) {
            Err(e) => Err(e),
            Ok(b) => Ok(
                PoolState {
                    assets: s.assets.insert(asset_out, no),
                    hub_liquidity: s.hub_liquidity + c.delta_hub_reserve as nat + c.extra_hub_reserve as nat,
                    balances: b,
                    ..s
                },
            ),
        },
        None => Err(Error::Overflow),
    }
}

/// The most that may enter or leave a reserve in one trade.
pub open spec fn ratio_limit(reserve: Balance, ratio: Balance) -> nat {
    reserve as nat / ratio as nat
}

/// What selling `amount` of hub asset for `asset_out` leads to, once the
/// amount and the seller's balance are known to suffice.
pub open spec fn sell_hub_outcome(
    s: PoolState,
    who: AccountId,
    asset_out: AssetId,
    amount: Balance,
    min_buy_amount: Balance,
) -> Result<PoolState, Error> {
    let cfg = s.config;
    if !s.assets.dom().contains(asset_out) {
        Err(Error::AssetNotFound)
    } else {
        let o = s.assets[asset_out];
        if !o.tradable.buy || who == cfg.pool_account {
            Err(Error::NotAllowed)
        } else if cfg.max_in_ratio == 0 {
            Err(Error::DivisionByZero)
        } else if amount > ratio_limit(o.hub_reserve, cfg.max_in_ratio) {
            Err(Error::MaxInRatioExceeded)
        } else {
            match sell_out_spec(
                o.reserve as nat,
                o.hub_reserve as nat,
                amount as nat,
                cfg.asset_fee,
                cfg.on_trade_withdrawal,
            ) {
                None => Err(Error::Overflow),
                Some(c) => if c.amount_out < min_buy_amount {
                    Err(Error::BuyLimitNotReached)
                } else if cfg.max_out_ratio == 0 {
                    Err(Error::DivisionByZero)
                } else if c.amount_out > ratio_limit(o.reserve, cfg.max_out_ratio) {
                    Err(Error::MaxOutRatioExceeded)
                } else {
                    hub_trade_committed(s, who, asset_out, c)
                },
            }
        }
    }
}

/// What selling `amount` of `asset_in` for `asset_out` on behalf of `who`
/// leads to: the pool after the sale, or the first reason against it.
pub open spec fn sell_outcome(
    s: PoolState,
    who: AccountId,
    asset_in: AssetId,
    asset_out: AssetId,
    amount: Balance,
    min_buy_amount: Balance,
) -> Result<PoolState, Error> {
    let cfg = s.config;
    if asset_in == asset_out {
        Err(Error::SameAssetTradeNotAllowed)
    } else if amount < cfg.min_trading_amount {
        Err(Error::InsufficientTradingAmount)
    } else if s.balances[(who, asset_in)] < amount {
        Err(Error::InsufficientBalance)
    } else if asset_in == cfg.hub_asset {
        sell_hub_outcome(s, who, asset_out, amount, min_buy_amount)
    } else if asset_out == cfg.hub_asset {
        Err(Error::NotAllowed)
    } else if !s.assets.dom().contains(asset_in) || !s.assets.dom().contains(asset_out) {
        Err(Error::AssetNotFound)
    } else {
        let i = s.assets[asset_in];
        let o = s.assets[asset_out];
        if !i.tradable.sell || !o.tradable.buy {
            Err(Error::NotAllowed)
        } else if cfg.max_in_ratio == 0 {
            Err(Error::DivisionByZero)
        } else if amount > ratio_limit(i.reserve, cfg.max_in_ratio) {
            Err(Error::MaxInRatioExceeded)
        } else {
            match sell_spec(
                i,
                o,
                amount as nat,
                cfg.asset_fee,
                cfg.protocol_fee,
                cfg.burn_fee,
                cfg.on_trade_withdrawal,
            ) {
                None => Err(Error::Overflow),
                Some(c) => if c.asset_out.amount_out < min_buy_amount {
                    Err(Error::BuyLimitNotReached)
                } else if cfg.max_out_ratio == 0 {
                    Err(Error::DivisionByZero)
                } else if c.asset_out.amount_out > ratio_limit(o.reserve, cfg.max_out_ratio) {
                    Err(Error::MaxOutRatioExceeded)
                } else {
                    trade_committed(s, who, asset_in, asset_out, c)
                },
            }
        }
    }
}

/// What a trade did, for those who watch the pool.
#[derive(Clone, Copy, Debug, PartialEq, Eq, Structural)]
pub struct TradeExecuted {
    /// The trader.
    pub who: AccountId,
    /// The asset that the trader paid.
    pub asset_in: AssetId,
    /// The asset that the trader received.
    pub asset_out: AssetId,
    /// What the trader paid.
    pub amount_in: Balance,
    /// What the trader received.
    pub amount_out: Balance,
    /// Hub asset that left the asset paid; zero where hub asset itself was
    /// paid.
    pub hub_amount_in: Balance,
    /// Hub asset that the trade routed to the asset received; zero where hub
    /// asset itself was paid.
    pub hub_amount_out: Balance,
    /// The asset fee, in the asset received.
    pub asset_fee_amount: Balance,
    /// The protocol fee, in hub asset.
    pub protocol_fee_amount: Balance,
}

/// The report of a trade between two assets.
pub open spec fn trade_report(who: AccountId, asset_in: AssetId, asset_out: AssetId, c: TradeStateChange) -> TradeExecuted {
    TradeExecuted {
        who,
        asset_in,
        asset_out,
        amount_in: c.asset_in.amount_in,
        amount_out: c.asset_out.amount_out,
        hub_amount_in: c.asset_in.delta_hub_reserve,
        hub_amount_out: c.asset_out.delta_hub_reserve,
        asset_fee_amount: c.asset_out.asset_fee,
        protocol_fee_amount: c.asset_in.protocol_fee,
    }
}

/// The report of a trade of hub asset for an asset.
pub open spec fn hub_trade_report(who: AccountId, hub_asset: AssetId, asset_out: AssetId, c: AssetOutChange) -> TradeExecuted {
    TradeExecuted {
        who,
        asset_in: hub_asset,
        asset_out,
        amount_in: c.delta_hub_reserve,
        amount_out: c.amount_out,
        hub_amount_in: 0,
        hub_amount_out: 0,
        asset_fee_amount: c.asset_fee,
        protocol_fee_amount: 0,
    }
}

/// The report of a sale of `amount` of `asset_in` for `asset_out`, as far
/// as the pricing kernel can tell.
pub open spec fn sell_report(s: PoolState, who: AccountId, asset_in: AssetId, asset_out: AssetId, amount: Balance) -> Option<
    TradeExecuted,
> {
    let cfg = s.config;
    if asset_in == cfg.hub_asset {
        match sell_out_spec(
            s.assets[asset_out].reserve as nat,
            s.assets[asset_out].hub_reserve as nat,
            amount as nat,
            cfg.asset_fee,
            cfg.on_trade_withdrawal,
        ) {
            None => None,
            Some(c) => Some(hub_trade_report(who, asset_in, asset_out, c)),
        }
    } else {
        match sell_spec(
            s.assets[asset_in],
            s.assets[asset_out],
            amount as nat,
            cfg.asset_fee,
            cfg.protocol_fee,
            cfg.burn_fee,
            cfg.on_trade_withdrawal,
        ) {
            None => None,
            Some(c) => Some(trade_report(who, asset_in, asset_out, c)),
        }
    }
}

/// The report of a purchase of `amount` of `asset_out` with `asset_in`, as
/// far as the pricing kernel can tell.
pub open spec fn buy_report(s: PoolState, who: AccountId, asset_out: AssetId, asset_in: AssetId, amount: Balance) -> Option<
    TradeExecuted,
> {
    let cfg = s.config;
    if asset_in == cfg.hub_asset {
        match buy_out_spec(
            s.assets[asset_out].reserve as nat,
            s.assets[asset_out].hub_reserve as nat,
            amount as nat,
            cfg.asset_fee,
            cfg.on_trade_withdrawal,
        ) {
            None => None,
            Some(c) => Some(hub_trade_report(who, asset_in, asset_out, c)),
        }
    } else {
        match buy_spec(
            s.assets[asset_in],
            s.assets[asset_out],
            amount as nat,
            cfg.asset_fee,
            cfg.protocol_fee,
            cfg.burn_fee,
            cfg.on_trade_withdrawal,
        ) {
            None => None,
            Some(c) => Some(trade_report(who, asset_in, asset_out, c)),
        }
    }
}

/// What adding `amount` of `asset` as liquidity on behalf of `who` leads to.
///
/// The provider pays `amount` to the pool and receives a position over the
/// new shares, opened at the price after the addition; hub asset is minted to
/// the pool in proportion.
pub open spec fn add_liquidity_outcome(s: PoolState, who: AccountId, asset: AssetId, amount: Balance) -> Result<
    PoolState,
    Error,
> {
    let cfg = s.config;
    if amount < cfg.min_pool_liquidity {
        Err(Error::InsufficientLiquidity)
    } else if !s.assets.dom().contains(asset) {
        Err(Error::AssetNotFound)
    } else {
        let state = s.assets[asset];
        if !state.tradable.add_liquidity {
            Err(Error::NotAllowed)
        } else if s.balances[(who, asset)] < amount {
            Err(Error::InsufficientBalance)
        } else {
            match add_liquidity_spec(state, amount as nat) {
                None => Err(Error::Overflow),
                Some(c) => match after_added(state, c) {
                    None => Err(Error::Overflow),
                    Some(grown) => if s.hub_liquidity + c.delta_hub_reserve > u128::MAX
                        || s.next_position_id == u64::MAX {
                        Err(Error::Overflow)
                    } else if grown.hub_reserve > state.cap.mul_floor_spec(
                        s.hub_liquidity + c.delta_hub_reserve as nat,
                    ) {
                        Err(Error::AssetWeightCapExceeded)
                    } else {
                        match and_credited(
                            moved(s.balances, asset, who, cfg.pool_account, amount as nat),
                            cfg.pool_account,
                            cfg.hub_asset,
                            c.delta_hub_reserve as nat,
                        ) {
                            Err(e) => Err(e),
                            Ok(b) => Ok(
                                PoolState {
                                    assets: s.assets.insert(asset, grown),
                                    hub_liquidity: s.hub_liquidity + c.delta_hub_reserve as nat,
                                    balances: b,
                                    positions: s.positions.insert(
                                        s.next_position_id,
                                        position_spec(
                                            who,
                                            asset,
                                            amount,
                                            c.delta_shares,
                                            grown.hub_reserve,
                                            grown.reserve,
                                        ),
                                    ),
                                    next_position_id: (s.next_position_id + 1) as PositionId,
                                    ..s
                                },
                            ),
                        }
                    },
                },
            }
        }
    }
}

/// What moving `amount` of `asset` from one account to another leads to.
///
/// The pool's account gives nothing away this way, and receives no hub
/// asset: what it holds changes with the records of the pool alone.
pub open spec fn transfer_outcome(
    s: PoolState,
    asset: AssetId,
    from: AccountId,
    to: AccountId,
    amount: Balance,
) -> Result<PoolState, Error> {
    if from == s.config.pool_account || (to == s.config.pool_account && asset == s.config.hub_asset) {
        Err(Error::NotAllowed)
    } else {
        match moved(s.balances, asset, from, to, amount as nat) {
            Err(e) => Err(e),
            Ok(b) => Ok(PoolState { balances: b, ..s }),
        }
    }
}

/// What buying `amount` of `asset_out` with hub asset leads to, once the
/// amount is known to suffice.
pub open spec fn buy_with_hub_outcome(
    s: PoolState,
    who: AccountId,
    asset_out: AssetId,
    amount: Balance,
    max_sell_amount: Balance,
) -> Result<PoolState, Error> {
    let cfg = s.config;
    if !s.assets.dom().contains(asset_out) {
        Err(Error::AssetNotFound)
    } else {
        let o = s.assets[asset_out];
        if !o.tradable.buy || who == cfg.pool_account {
            Err(Error::NotAllowed)
        } else if cfg.max_out_ratio == 0 {
            Err(Error::DivisionByZero)
        } else if amount > ratio_limit(o.reserve, cfg.max_out_ratio) {
            Err(Error::MaxOutRatioExceeded)
        } else {
            match buy_out_spec(
                o.reserve as nat,
                o.hub_reserve as nat,
                amount as nat,
                cfg.asset_fee,
                cfg.on_trade_withdrawal,
            ) {
                None => Err(Error::Overflow),
                Some(c) => if s.balances[(who, cfg.hub_asset)] < c.delta_hub_reserve {
                    Err(Error::InsufficientBalance)
                } else if c.delta_hub_reserve > max_sell_amount {
                    Err(Error::SellLimitExceeded)
                } else if cfg.max_in_ratio == 0 {
                    Err(Error::DivisionByZero)
                } else if c.delta_hub_reserve > ratio_limit(o.hub_reserve, cfg.max_in_ratio) {
                    Err(Error::MaxInRatioExceeded)
                } else {
                    hub_trade_committed(s, who, asset_out, c)
                },
            }
        }
    }
}

/// What buying `amount` of `asset_out` with `asset_in` on behalf of `who`
/// leads to: the pool after the purchase, or the first reason against it.
pub open spec fn buy_outcome(
    s: PoolState,
    who: AccountId,
    asset_out: AssetId,
    asset_in: AssetId,
    amount: Balance,
    max_sell_amount: Balance,
) -> Result<PoolState, Error> {
    let cfg = s.config;
    if asset_in == asset_out {
        Err(Error::SameAssetTradeNotAllowed)
    } else if amount < cfg.min_trading_amount {
        Err(Error::InsufficientTradingAmount)
    } else if asset_out == cfg.hub_asset {
        Err(Error::NotAllowed)
    } else if asset_in == cfg.hub_asset {
        buy_with_hub_outcome(s, who, asset_out, amount, max_sell_amount)
    } else if !s.assets.dom().contains(asset_in) || !s.assets.dom().contains(asset_out) {
        Err(Error::AssetNotFound)
    } else {
        let i = s.assets[asset_in];
        let o = s.assets[asset_out];
        if !i.tradable.sell || !o.tradable.buy {
            Err(Error::NotAllowed)
        } else if cfg.max_out_ratio == 0 {
            Err(Error::DivisionByZero)
        } else if amount > ratio_limit(o.reserve, cfg.max_out_ratio) {
            Err(Error::MaxOutRatioExceeded)
        } else {
            match buy_spec(
                i,
                o,
                amount as nat,
                cfg.asset_fee,
                cfg.protocol_fee,
                cfg.burn_fee,
                cfg.on_trade_withdrawal,
            ) {
                None => Err(Error::Overflow),
                Some(c) => if s.balances[(who, asset_in)] < c.asset_in.amount_in {
                    Err(Error::InsufficientBalance)
                } else if c.asset_in.amount_in > max_sell_amount {
                    Err(Error::SellLimitExceeded)
                } else if cfg.max_in_ratio == 0 {
                    Err(Error::DivisionByZero)
                } else if c.asset_in.amount_in > ratio_limit(i.reserve, cfg.max_in_ratio) {
                    Err(Error::MaxInRatioExceeded)
                } else {
                    trade_committed(s, who, asset_in, asset_out, c)
                },
            }
        }
    }
}

/// The distance of two numbers.
pub open spec fn distance(a: u128, b: u128) -> nat {
    if a >= b {
        (a - b) as nat
    } else {
        (b - a) as nat
    }
}

/// Whether the price of `state` is within the fraction `tolerance` of the
/// price at which `position` was opened; `None` where one of the two prices
/// cannot be formed.
pub open spec fn price_within_tolerance(state: AssetReserveState, position: Position, tolerance: Permill) -> Option<
    bool,
> {
    match (position.price_spec(), state.price_spec()) {
        (Some(opened), Some(now)) => Some(
            distance(opened.inner, now.inner) <= tolerance.mul_floor_spec(opened.inner as nat),
        ),
        _ => None,
    }
}

/// The position after `shares` of it were withdrawn: the amount it stands
/// for shrinks as the shares do, rounded in favour of the position.
pub open spec fn position_after(p: Position, shares: Balance) -> Position {
    Position {
        amount: (p.amount - (p.amount as nat * shares as nat) / (p.shares as nat)) as u128,
        shares: (p.shares - shares) as u128,
        ..p
    }
}

/// What withdrawing `shares` of the position `id` on behalf of `who` leads
/// to.
///
/// The provider receives the part of the reserve that the shares stand for;
/// the hub asset attributed to that part is destroyed. The withdrawal is
/// refused while the price is further from the price at which the position
/// was opened than the configured tolerance, and where it would take more
/// from the reserve than a trade may.
pub open spec fn remove_liquidity_outcome(s: PoolState, who: AccountId, id: PositionId, shares: Balance) -> Result<
    PoolState,
    Error,
> {
    let cfg = s.config;
    if !s.positions.dom().contains(id) {
        Err(Error::PositionNotFound)
    } else {
        let p = s.positions[id];
        if p.owner != who {
            Err(Error::Forbidden)
        } else if shares == 0 || shares > p.shares {
            Err(Error::InsufficientShares)
        } else if !s.assets.dom().contains(p.asset_id) {
            Err(Error::AssetNotFound)
        } else {
            let state = s.assets[p.asset_id];
            if !state.tradable.remove_liquidity {
                Err(Error::NotAllowed)
            } else {
                match price_within_tolerance(state, p, cfg.price_tolerance) {
                    None => Err(Error::Overflow),
                    Some(within) => if !within {
                        Err(Error::PriceDifferenceTooHigh)
                    } else {
                        match remove_liquidity_spec(state, shares as nat) {
                            None => Err(Error::Overflow),
                            Some(c) => if cfg.max_out_ratio == 0 {
                                Err(Error::DivisionByZero)
                            } else if c.delta_reserve > ratio_limit(state.reserve, cfg.max_out_ratio) {
                                Err(Error::MaxOutRatioExceeded)
                            } else {
                                match after_removed(state, c) {
                                    None => Err(Error::InsufficientShares),
                                    Some(shrunk) => match and_debited(
                                        moved(
                                            s.balances,
                                            p.asset_id,
                                            cfg.pool_account,
                                            who,
                                            c.delta_reserve as nat,
                                        ),
                                        cfg.pool_account,
                                        cfg.hub_asset,
                                        c.delta_hub_reserve as nat,
                                    ) {
                                        Err(e) => Err(e),
                                        Ok(b) => Ok(
                                            PoolState {
                                                assets: s.assets.insert(p.asset_id, shrunk),
                                                hub_liquidity: (s.hub_liquidity - c.delta_hub_reserve) as nat,
                                                balances: b,
                                                positions: s.positions.insert(id, position_after(p, shares)),
                                                ..s
                                            },
                                        ),
                                    },
                                }
                            },
                        }
                    },
                }
            }
        }
    }
}

/// What a withdrawal of `shares` of the position `id` pays out, as far as
/// the pricing kernel can tell.
pub open spec fn remove_quote(s: PoolState, id: PositionId, shares: Balance) -> Option<Balance> {
    match remove_liquidity_spec(s.assets[s.positions[id].asset_id], shares as nat) {
        None => None,
        Some(c) => Some(c.delta_reserve),
    }
}

/// The sum of the hub reserves of the records in `s`.
pub open spec fn sum_of_hub_reserves(s: Seq<(AssetId, AssetReserveState)>) -> nat
    decreases s.len(),
{
    if s.len() == 0 {
        0
    } else {
        sum_of_hub_reserves(s.drop_last()) + s.last().1.hub_reserve as nat
    }
}

} // verus!
