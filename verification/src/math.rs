//! The pricing kernel: what a trade or a change of liquidity does to the
//! numbers of one asset, computed with explicit rounding and without
//! overflow. Every function is pure; `None` stands for a division by zero or
//! a value beyond 128 bits.

use vstd::prelude::*;
use vstd::arithmetic::div_mod::*;
use vstd::arithmetic::mul::*;
use crate::arith::{
    mul_div_floor, mul_div_part, multiply_by_rational_with_rounding, Balance, Permill, Rounding,
};
use crate::state::AssetReserveState;

verus! {

/// What a trade does on the side of the asset that enters the pool.
#[derive(Clone, Copy, Debug, PartialEq, Eq, Structural)]
pub struct AssetInChange {
    /// Amount of the asset that the trader pays and the reserve gains.
    pub amount_in: Balance,
    /// Hub asset that leaves the hub reserve of the asset.
    pub delta_hub_reserve: Balance,
    /// The part of `delta_hub_reserve` that is skimmed as protocol fee.
    pub protocol_fee: Balance,
    /// The part of `protocol_fee` that is destroyed.
    pub burned_protocol_fee: Balance,
    /// What goes on to the asset that leaves the pool:
    /// `delta_hub_reserve - protocol_fee`.
    pub hub_routed: Balance,
}

/// What a trade does on the side of the asset that leaves the pool.
#[derive(Clone, Copy, Debug, PartialEq, Eq, Structural)]
pub struct AssetOutChange {
    /// Hub asset that arrives at the hub reserve of the asset.
    pub delta_hub_reserve: Balance,
    /// Amount of the asset that the trader receives.
    pub amount_out: Balance,
    /// The asset fee: what the curve would have paid beyond `amount_out`.
    pub asset_fee: Balance,
    /// The part of `asset_fee` that leaves the pool for the fee collector.
    pub fee_withdrawn: Balance,
    /// Hub asset minted to the hub reserve for the fee that stays in the
    /// reserve, so that the fee does not move the price.
    pub extra_hub_reserve: Balance,
}

/// A trade of one pool asset for another.
#[derive(Clone, Copy, Debug, PartialEq, Eq, Structural)]
pub struct TradeStateChange {
    /// The side of the asset sold to the pool.
    pub asset_in: AssetInChange,
    /// The side of the asset bought from the pool.
    pub asset_out: AssetOutChange,
}

/// What a provider of liquidity receives and the asset gains.
#[derive(Clone, Copy, Debug, PartialEq, Eq, Structural)]
pub struct LiquidityAdded {
    /// Amount of the asset added to the reserve.
    pub delta_reserve: Balance,
    /// Hub asset minted to the hub reserve.
    pub delta_hub_reserve: Balance,
    /// Shares minted to the provider.
    pub delta_shares: Balance,
}

/// What a withdrawal of liquidity takes from the asset and gives out.
#[derive(Clone, Copy, Debug, PartialEq, Eq, Structural)]
pub struct LiquidityRemoved {
    /// Shares that cease to exist.
    pub delta_shares: Balance,
    /// Amount of the asset paid out of the reserve.
    pub delta_reserve: Balance,
    /// Hub asset taken out of the hub reserve and destroyed.
    pub delta_hub_reserve: Balance,
}

/// `x` without the fraction `fee` of it, rounded down.
pub fn amount_without_fee(x: Balance, fee: Permill) -> (res: Balance)
    ensures
        res == fee.left_from_one_spec(x as nat),
        res <= x,
{
    fee.left_from_one().mul_floor(x)
}

/// Entering side of a sale: `amount` of the asset buys hub asset along the
/// curve `reserve * hub_reserve`, rounded down; the protocol fee is taken from
/// what was bought.
pub open spec fn sell_in_spec(
    reserve: nat,
    hub_reserve: nat,
    amount: nat,
    protocol_fee: Permill,
    burn_fee: Permill,
) -> Option<AssetInChange> {
    if reserve + amount > u128::MAX {
        None
    } else {
        match mul_div_floor(amount, hub_reserve, reserve + amount) {
            None => None,
            Some(d) => {
                let fee = protocol_fee.mul_floor_spec(d as nat);
                Some(
                    AssetInChange {
                        amount_in: amount as u128,
                        delta_hub_reserve: d,
                        protocol_fee: fee as u128,
                        burned_protocol_fee: burn_fee.mul_floor_spec(fee) as u128,
                        hub_routed: (d - fee) as u128,
                    },
                )
            },
        }
    }
}

/// Leaving side of a sale: `d_hub` of hub asset buys the asset along the
/// curve, rounded down; the asset fee is withheld from what the trader gets,
/// the fraction `withdrawal` of it leaves the pool, and hub asset is minted
/// for the rest.
pub open spec fn sell_out_spec(
    reserve: nat,
    hub_reserve: nat,
    d_hub: nat,
    asset_fee: Permill,
    withdrawal: Permill,
) -> Option<AssetOutChange> {
    if hub_reserve + d_hub > u128::MAX {
        None
    } else {
        match mul_div_floor(reserve, d_hub, hub_reserve + d_hub) {
            None => None,
            Some(gross) => {
                let net = asset_fee.left_from_one_spec(gross as nat);
                let fee = (gross - net) as nat;
                let withdrawn = withdrawal.mul_floor_spec(fee);
                match mul_div_floor(hub_reserve + d_hub, gross as nat, (reserve - gross) as nat) {
                    None => None,
                    Some(x) => {
                        let minted = asset_fee.mul_floor_spec(x as nat);
                        let cut = if fee == 0 {
                            0nat
                        } else {
                            (withdrawn * minted) / fee
                        };
                        Some(
                            AssetOutChange {
                                delta_hub_reserve: d_hub as u128,
                                amount_out: net as u128,
                                asset_fee: fee as u128,
                                fee_withdrawn: withdrawn as u128,
                                extra_hub_reserve: (minted - cut) as u128,
                            },
                        )
                    },
                }
            },
        }
    }
}

/// Leaving side of a purchase: the hub asset that `amount` of the asset
/// costs, computed on the reserve without the asset fee and raised by one
/// unit; the asset fee is what the curve pays for that hub asset beyond
/// `amount`.
pub open spec fn buy_out_spec(
    reserve: nat,
    hub_reserve: nat,
    amount: nat,
    asset_fee: Permill,
    withdrawal: Permill,
) -> Option<AssetOutChange> {
    let reserve_no_fee = asset_fee.left_from_one_spec(reserve);
    if reserve_no_fee <= amount {
        None
    } else {
        match mul_div_floor(hub_reserve, amount, (reserve_no_fee - amount) as nat) {
            None => None,
            Some(h) => if h + 1 + hub_reserve > u128::MAX {
                None
            } else {
                let d_hub = (h + 1) as nat;
                match mul_div_floor(reserve, d_hub, hub_reserve + d_hub) {
                    None => None,
                    Some(gross) => {
                        let fee = (gross - amount) as nat;
                        let withdrawn = withdrawal.mul_floor_spec(fee);
                        match mul_div_floor(
                            hub_reserve + d_hub,
                            (fee - withdrawn) as nat,
                            (reserve - gross) as nat,
                        ) {
                            None => None,
                            Some(minted) => Some(
                                AssetOutChange {
                                    delta_hub_reserve: d_hub as u128,
                                    amount_out: amount as u128,
                                    asset_fee: fee as u128,
                                    fee_withdrawn: withdrawn as u128,
                                    extra_hub_reserve: minted,
                                },
                            ),
                        }
                    },
                }
            },
        }
    }
}

/// Entering side of a purchase: the hub asset that must leave the asset so
/// that `hub_needed` is left after the protocol fee, and the amount of the
/// asset that pays for it, raised by one unit.
pub open spec fn buy_in_spec(
    reserve: nat,
    hub_reserve: nat,
    hub_needed: nat,
    protocol_fee: Permill,
    burn_fee: Permill,
) -> Option<AssetInChange> {
    match mul_div_floor(hub_needed, 1_000_000, (1_000_000 - protocol_fee.parts()) as nat) {
        None => None,
        Some(d) => if d >= hub_reserve {
            None
        } else {
            match mul_div_floor(reserve, d as nat, (hub_reserve - d) as nat) {
                None => None,
                Some(a) => if a + 1 > u128::MAX {
                    None
                } else {
                    let fee = (d - hub_needed) as nat;
                    Some(
                        AssetInChange {
                            amount_in: (a + 1) as u128,
                            delta_hub_reserve: d,
                            protocol_fee: fee as u128,
                            burned_protocol_fee: burn_fee.mul_floor_spec(fee) as u128,
                            hub_routed: hub_needed as u128,
                        },
                    )
                },
            }
        },
    }
}

/// A sale of `amount` of one asset for another: the entering side, then the
/// leaving side on what the entering side routed on.
pub open spec fn sell_spec(
    asset_in: AssetReserveState,
    asset_out: AssetReserveState,
    amount: nat,
    asset_fee: Permill,
    protocol_fee: Permill,
    burn_fee: Permill,
    withdrawal: Permill,
) -> Option<TradeStateChange> {
    match sell_in_spec(
        asset_in.reserve as nat,
        asset_in.hub_reserve as nat,
        amount,
        protocol_fee,
        burn_fee,
    ) {
        None => None,
        Some(i) => match sell_out_spec(
            asset_out.reserve as nat,
            asset_out.hub_reserve as nat,
            i.hub_routed as nat,
            asset_fee,
            withdrawal,
        ) {
            None => None,
            Some(o) => Some(TradeStateChange { asset_in: i, asset_out: o }),
        },
    }
}

/// A purchase of `amount` of one asset with another: the leaving side, then
/// the entering side for the hub asset that the leaving side needs.
pub open spec fn buy_spec(
    asset_in: AssetReserveState,
    asset_out: AssetReserveState,
    amount: nat,
    asset_fee: Permill,
    protocol_fee: Permill,
    burn_fee: Permill,
    withdrawal: Permill,
) -> Option<TradeStateChange> {
    match buy_out_spec(
        asset_out.reserve as nat,
        asset_out.hub_reserve as nat,
        amount,
        asset_fee,
        withdrawal,
    ) {
        None => None,
        Some(o) => match buy_in_spec(
            asset_in.reserve as nat,
            asset_in.hub_reserve as nat,
            o.delta_hub_reserve as nat,
            protocol_fee,
            burn_fee,
        ) {
            None => None,
            Some(i) => Some(TradeStateChange { asset_in: i, asset_out: o }),
        },
    }
}

/// Liquidity added in proportion: hub asset and shares grow as the reserve
/// does, both rounded down.
pub open spec fn add_liquidity_spec(state: AssetReserveState, amount: nat) -> Option<
    LiquidityAdded,
> {
    match (
        mul_div_floor(state.hub_reserve as nat, amount, state.reserve as nat),
        mul_div_floor(state.shares as nat, amount, state.reserve as nat),
    ) {
        (Some(h), Some(s)) => if amount > u128::MAX {
            None
        } else {
            Some(LiquidityAdded { delta_reserve: amount as u128, delta_hub_reserve: h, delta_shares: s })
        },
        _ => None,
    }
}

/// Liquidity removed in proportion: the reserve shrinks as the shares do, and
/// the hub reserve as the reserve does, both rounded down.
pub open spec fn remove_liquidity_spec(state: AssetReserveState, shares: nat) -> Option<
    LiquidityRemoved,
> {
    if shares > state.shares {
        None
    } else {
        match mul_div_floor(state.reserve as nat, shares, state.shares as nat) {
            None => None,
            Some(r) => match mul_div_floor(state.hub_reserve as nat, r as nat, state.reserve as nat) {
                None => None,
                Some(h) => Some(
                    LiquidityRemoved { delta_shares: shares as u128, delta_reserve: r, delta_hub_reserve: h },
                ),
            },
        }
    }
}

/// A part of a whole, scaled: with `a <= c`, `a * b / c` is at most `b`.
pub proof fn lemma_mul_div_le(a: nat, b: nat, c: nat)
    requires
        a <= c,
        c > 0,
    ensures
        (a * b) / c <= b,
        mul_div_floor(a, b, c) is Some ==> mul_div_floor(a, b, c)->Some_0 <= b,
        b <= u128::MAX ==> mul_div_floor(a, b, c) is Some,
        mul_div_floor(b, a, c) == mul_div_floor(a, b, c),
{
    assert(a * b <= c * b) by (nonlinear_arith)
        requires
            a <= c,
    ;
    lemma_div_is_ordered((a * b) as int, (c * b) as int, c as int);
    lemma_div_multiples_vanish(b as int, c as int);
    assert(b * a == a * b) by (nonlinear_arith);
}

/// Entering side of a sale.
pub fn calculate_sell_in(
    reserve: Balance,
    hub_reserve: Balance,
    amount: Balance,
    protocol_fee: Permill,
    burn_fee: Permill,
) -> (res: Option<AssetInChange>)
    ensures
        res == sell_in_spec(reserve as nat, hub_reserve as nat, amount as nat, protocol_fee, burn_fee),
        res matches Some(c) ==> {
            &&& c.amount_in == amount
            &&& c.delta_hub_reserve <= hub_reserve
            &&& c.hub_routed + c.protocol_fee == c.delta_hub_reserve
            &&& c.burned_protocol_fee <= c.protocol_fee
        },
{
    let denominator = match reserve.checked_add(amount) {
        Some(d) => d,
        None => { return None; },
    };
    let d = match multiply_by_rational_with_rounding(amount, hub_reserve, denominator, Rounding::Down) {
        Some(d) => d,
        None => { return None; },
    };
    proof {
        lemma_mul_div_le(amount as nat, hub_reserve as nat, denominator as nat);
    }
    let fee = protocol_fee.mul_floor(d);
    let burned = burn_fee.mul_floor(fee);
    Some(
        AssetInChange {
            amount_in: amount,
            delta_hub_reserve: d,
            protocol_fee: fee,
            burned_protocol_fee: burned,
            hub_routed: d - fee,
        },
    )
}

/// Leaving side of a sale.
pub fn calculate_sell_out(
    reserve: Balance,
    hub_reserve: Balance,
    d_hub: Balance,
    asset_fee: Permill,
    withdrawal: Permill,
) -> (res: Option<AssetOutChange>)
    ensures
        res == sell_out_spec(reserve as nat, hub_reserve as nat, d_hub as nat, asset_fee, withdrawal),
        res matches Some(c) ==> {
            &&& c.delta_hub_reserve == d_hub
            &&& c.amount_out + c.asset_fee < reserve
            &&& c.fee_withdrawn <= c.asset_fee
        },
{
    let denominator = match hub_reserve.checked_add(d_hub) {
        Some(d) => d,
        None => { return None; },
    };
    let gross = match multiply_by_rational_with_rounding(reserve, d_hub, denominator, Rounding::Down) {
        Some(g) => g,
        None => { return None; },
    };
    proof {
        lemma_mul_div_le(d_hub as nat, reserve as nat, denominator as nat);
    }
    let net = amount_without_fee(gross, asset_fee);
    let fee = gross - net;
    let withdrawn = withdrawal.mul_floor(fee);
    let x = match multiply_by_rational_with_rounding(denominator, gross, reserve - gross, Rounding::Down) {
        Some(x) => x,
        None => { return None; },
    };
    let minted = asset_fee.mul_floor(x);
    let cut = if fee == 0 {
        0
    } else {
        proof {
            assert(withdrawn as nat * minted as nat == minted as nat * withdrawn as nat) by (nonlinear_arith);
        }
        mul_div_part(minted, withdrawn, fee)
    };
    Some(
        AssetOutChange {
            delta_hub_reserve: d_hub,
            amount_out: net,
            asset_fee: fee,
            fee_withdrawn: withdrawn,
            extra_hub_reserve: minted - cut,
        },
    )
}

/// A quotient rounded down falls short of the dividend by less than the
/// divisor.
pub proof fn lemma_floor_bounds(n: nat, d: nat)
    requires
        d > 0,
    ensures
        (n / d) * d <= n,
        n < (n / d + 1) * d,
{
    lemma_fundamental_div_mod(n as int, d as int);
    lemma_mod_bound(n as int, d as int);
    let q = n / d;
    assert((q + 1) * d == q * d + d) by (nonlinear_arith);
    assert(d * q == q * d) by (nonlinear_arith);
}

/// A dividend of at least `a` times the divisor has a quotient of at least `a`.
pub proof fn lemma_div_ge(n: nat, d: nat, a: nat)
    requires
        d > 0,
        n >= a * d,
    ensures
        n / d >= a,
{
    lemma_div_is_ordered((a * d) as int, n as int, d as int);
    lemma_div_multiples_vanish(a as int, d as int);
    assert(a * d == d * a) by (nonlinear_arith);
}

/// The hub asset charged for a purchase buys, along the curve, at least the
/// amount purchased: the asset fee is never negative.
pub proof fn lemma_buy_covers_amount(
    reserve: nat,
    hub_reserve: nat,
    amount: nat,
    reserve_no_fee: nat,
    d_hub: nat,
)
    requires
        reserve_no_fee <= reserve,
        amount < reserve_no_fee,
        d_hub == (hub_reserve * amount) / ((reserve_no_fee - amount) as nat) + 1,
    ensures
        (reserve * d_hub) / (hub_reserve + d_hub) >= amount,
{
    let room = (reserve_no_fee - amount) as nat;
    lemma_floor_bounds(hub_reserve * amount, room);
    assert(hub_reserve * amount < d_hub * room);
    assert(reserve * d_hub >= amount * (hub_reserve + d_hub)) by (nonlinear_arith)
        requires
            hub_reserve * amount < d_hub * room,
            room == reserve_no_fee - amount,
            reserve_no_fee <= reserve,
            amount < reserve_no_fee,
    ;
    lemma_div_ge(reserve * d_hub, hub_reserve + d_hub, amount);
}

/// Leaving side of a purchase.
pub fn calculate_buy_out(
    reserve: Balance,
    hub_reserve: Balance,
    amount: Balance,
    asset_fee: Permill,
    withdrawal: Permill,
) -> (res: Option<AssetOutChange>)
    ensures
        res == buy_out_spec(reserve as nat, hub_reserve as nat, amount as nat, asset_fee, withdrawal),
        res matches Some(c) ==> {
            &&& c.amount_out == amount
            &&& c.delta_hub_reserve >= 1
            &&& c.amount_out + c.asset_fee < reserve
            &&& c.fee_withdrawn <= c.asset_fee
        },
{
    let reserve_no_fee = amount_without_fee(reserve, asset_fee);
    if reserve_no_fee <= amount {
        return None;
    }
    let h = match multiply_by_rational_with_rounding(hub_reserve, amount, reserve_no_fee - amount, Rounding::Down) {
        Some(h) => h,
        None => { return None; },
    };
    let d_hub = match h.checked_add(1) {
        Some(d) => d,
        None => { return None; },
    };
    let denominator = match hub_reserve.checked_add(d_hub) {
        Some(d) => d,
        None => { return None; },
    };
    let gross = match multiply_by_rational_with_rounding(reserve, d_hub, denominator, Rounding::Down) {
        Some(g) => g,
        None => { return None; },
    };
    proof {
        lemma_mul_div_le(d_hub as nat, reserve as nat, denominator as nat);
        lemma_buy_covers_amount(
            reserve as nat,
            hub_reserve as nat,
            amount as nat,
            reserve_no_fee as nat,
            d_hub as nat,
        );
    }
    let fee = gross - amount;
    let withdrawn = withdrawal.mul_floor(fee);
    let minted = match multiply_by_rational_with_rounding(denominator, fee - withdrawn, reserve - gross, Rounding::Down) {
        Some(m) => m,
        None => { return None; },
    };
    Some(
        AssetOutChange {
            delta_hub_reserve: d_hub,
            amount_out: amount,
            asset_fee: fee,
            fee_withdrawn: withdrawn,
            extra_hub_reserve: minted,
        },
    )
}

/// Entering side of a purchase.
pub fn calculate_buy_in(
    reserve: Balance,
    hub_reserve: Balance,
    hub_needed: Balance,
    protocol_fee: Permill,
    burn_fee: Permill,
) -> (res: Option<AssetInChange>)
    ensures
        res == buy_in_spec(reserve as nat, hub_reserve as nat, hub_needed as nat, protocol_fee, burn_fee),
        res matches Some(c) ==> {
            &&& c.amount_in >= 1
            &&& c.delta_hub_reserve < hub_reserve
            &&& c.hub_routed == hub_needed
            &&& c.hub_routed + c.protocol_fee == c.delta_hub_reserve
            &&& c.burned_protocol_fee <= c.protocol_fee
        },
{
    let complement: u128 = protocol_fee.left_from_one().deconstruct() as u128;
    let d = match multiply_by_rational_with_rounding(hub_needed, 1_000_000, complement, Rounding::Down) {
        Some(d) => d,
        None => { return None; },
    };
    if d >= hub_reserve {
        return None;
    }
    let a = match multiply_by_rational_with_rounding(reserve, d, hub_reserve - d, Rounding::Down) {
        Some(a) => a,
        None => { return None; },
    };
    let amount_in = match a.checked_add(1) {
        Some(x) => x,
        None => { return None; },
    };
    proof {
        assert(hub_needed * 1_000_000 >= hub_needed * complement) by (nonlinear_arith)
            requires
                complement <= 1_000_000,
        ;
        lemma_div_ge((hub_needed * 1_000_000) as nat, complement as nat, hub_needed as nat);
    }
    let fee = d - hub_needed;
    let burned = burn_fee.mul_floor(fee);
    Some(
        AssetInChange {
            amount_in,
            delta_hub_reserve: d,
            protocol_fee: fee,
            burned_protocol_fee: burned,
            hub_routed: hub_needed,
        },
    )
}

/// What selling `amount` of `asset_in` for `asset_out` does to both.
///
/// `None` when a reserve involved is empty or a value leaves 128 bits.
pub fn calculate_sell_state_changes(
    asset_in: &AssetReserveState,
    asset_out: &AssetReserveState,
    amount: Balance,
    asset_fee: Permill,
    protocol_fee: Permill,
    burn_fee: Permill,
    withdrawal: Permill,
) -> (res: Option<TradeStateChange>)
    ensures
        res == sell_spec(*asset_in, *asset_out, amount as nat, asset_fee, protocol_fee, burn_fee, withdrawal),
        res matches Some(c) ==> trade_change_bounded(*asset_in, *asset_out, c),
{
    let i = match calculate_sell_in(asset_in.reserve, asset_in.hub_reserve, amount, protocol_fee, burn_fee) {
        Some(i) => i,
        None => { return None; },
    };
    let o = match calculate_sell_out(
        asset_out.reserve,
        asset_out.hub_reserve,
        i.hub_routed,
        asset_fee,
        withdrawal,
    ) {
        Some(o) => o,
        None => { return None; },
    };
    Some(TradeStateChange { asset_in: i, asset_out: o })
}

/// What selling `hub_amount` of hub asset for `asset_out` does to it.
pub fn calculate_sell_hub_state_changes(
    asset_out: &AssetReserveState,
    hub_amount: Balance,
    asset_fee: Permill,
    withdrawal: Permill,
) -> (res: Option<AssetOutChange>)
    ensures
        res == sell_out_spec(
            asset_out.reserve as nat,
            asset_out.hub_reserve as nat,
            hub_amount as nat,
            asset_fee,
            withdrawal,
        ),
        res matches Some(c) ==> out_change_bounded(*asset_out, c) && c.delta_hub_reserve
            == hub_amount,
{
    calculate_sell_out(asset_out.reserve, asset_out.hub_reserve, hub_amount, asset_fee, withdrawal)
}

/// What buying `amount` of `asset_out` with `asset_in` does to both.
///
/// `None` when the amount is not below the reserve without its fee, the hub
/// asset needed is not below the hub reserve of `asset_in`, the protocol fee
/// is one whole, or a value leaves 128 bits.
pub fn calculate_buy_state_changes(
    asset_in: &AssetReserveState,
    asset_out: &AssetReserveState,
    amount: Balance,
    asset_fee: Permill,
    protocol_fee: Permill,
    burn_fee: Permill,
    withdrawal: Permill,
) -> (res: Option<TradeStateChange>)
    ensures
        res == buy_spec(*asset_in, *asset_out, amount as nat, asset_fee, protocol_fee, burn_fee, withdrawal),
        res matches Some(c) ==> trade_change_bounded(*asset_in, *asset_out, c) && c.asset_out.amount_out
            == amount,
{
    let o = match calculate_buy_out(asset_out.reserve, asset_out.hub_reserve, amount, asset_fee, withdrawal) {
        Some(o) => o,
        None => { return None; },
    };
    let i = match calculate_buy_in(
        asset_in.reserve,
        asset_in.hub_reserve,
        o.delta_hub_reserve,
        protocol_fee,
        burn_fee,
    ) {
        Some(i) => i,
        None => { return None; },
    };
    Some(TradeStateChange { asset_in: i, asset_out: o })
}

/// What buying `amount` of `asset_out` with hub asset does to it; the hub
/// asset to pay is the change's `delta_hub_reserve`.
pub fn calculate_buy_for_hub_asset_state_changes(
    asset_out: &AssetReserveState,
    amount: Balance,
    asset_fee: Permill,
    withdrawal: Permill,
) -> (res: Option<AssetOutChange>)
    ensures
        res == buy_out_spec(
            asset_out.reserve as nat,
            asset_out.hub_reserve as nat,
            amount as nat,
            asset_fee,
            withdrawal,
        ),
        res matches Some(c) ==> out_change_bounded(*asset_out, c) && c.amount_out == amount,
{
    calculate_buy_out(asset_out.reserve, asset_out.hub_reserve, amount, asset_fee, withdrawal)
}

/// The leaving side takes less than the reserve holds, and the fee collector
/// no more than the fee.
pub open spec fn out_change_bounded(state: AssetReserveState, c: AssetOutChange) -> bool {
    &&& c.amount_out + c.asset_fee < state.reserve
    &&& c.fee_withdrawn <= c.asset_fee
}

/// The entering side takes no more hub asset than the asset has, and passes
/// on what the protocol fee leaves of it.
pub open spec fn in_change_bounded(state: AssetReserveState, c: AssetInChange) -> bool {
    &&& c.delta_hub_reserve <= state.hub_reserve
    &&& c.hub_routed + c.protocol_fee == c.delta_hub_reserve
    &&& c.burned_protocol_fee <= c.protocol_fee
}

/// Both sides of a trade are bounded, and the hub asset that arrives at the
/// leaving side is what the entering side passed on.
pub open spec fn trade_change_bounded(
    asset_in: AssetReserveState,
    asset_out: AssetReserveState,
    c: TradeStateChange,
) -> bool {
    &&& in_change_bounded(asset_in, c.asset_in)
    &&& out_change_bounded(asset_out, c.asset_out)
    &&& c.asset_out.delta_hub_reserve == c.asset_in.hub_routed
}

/// What adding `amount` of liquidity does to the asset.
///
/// `None` when the reserve is empty or a value leaves 128 bits.
pub fn calculate_add_liquidity_state_changes(state: &AssetReserveState, amount: Balance) -> (res:
    Option<LiquidityAdded>)
    ensures
        res == add_liquidity_spec(*state, amount as nat),
{
    let h = match multiply_by_rational_with_rounding(state.hub_reserve, amount, state.reserve, Rounding::Down) {
        Some(h) => h,
        None => { return None; },
    };
    let s = match multiply_by_rational_with_rounding(state.shares, amount, state.reserve, Rounding::Down) {
        Some(s) => s,
        None => { return None; },
    };
    Some(LiquidityAdded { delta_reserve: amount, delta_hub_reserve: h, delta_shares: s })
}

/// What withdrawing `shares` does to the asset.
///
/// `None` when there are fewer shares than asked for, or none at all.
pub fn calculate_remove_liquidity_state_changes(state: &AssetReserveState, shares: Balance) -> (res:
    Option<LiquidityRemoved>)
    ensures
        res == remove_liquidity_spec(*state, shares as nat),
        res matches Some(c) ==> {
            &&& c.delta_shares == shares
            &&& c.delta_shares <= state.shares
            &&& c.delta_reserve <= state.reserve
            &&& c.delta_hub_reserve <= state.hub_reserve
        },
{
    if shares > state.shares {
        return None;
    }
    let r = match multiply_by_rational_with_rounding(state.reserve, shares, state.shares, Rounding::Down) {
        Some(r) => r,
        None => { return None; },
    };
    proof {
        lemma_mul_div_le(shares as nat, state.reserve as nat, state.shares as nat);
    }
    let h = match multiply_by_rational_with_rounding(state.hub_reserve, r, state.reserve, Rounding::Down) {
        Some(h) => h,
        None => { return None; },
    };
    proof {
        lemma_mul_div_le(r as nat, state.hub_reserve as nat, state.reserve as nat);
    }
    Some(LiquidityRemoved { delta_shares: shares, delta_reserve: r, delta_hub_reserve: h })
}

/// The record of the asset sold once the trade has entered it; `None` where
/// the reserve would leave 128 bits or the hub reserve would not suffice.
pub open spec fn after_in(state: AssetReserveState, c: AssetInChange) -> Option<AssetReserveState> {
    if state.reserve + c.amount_in > u128::MAX || c.delta_hub_reserve > state.hub_reserve {
        None
    } else {
        Some(
            AssetReserveState {
                reserve: (state.reserve + c.amount_in) as u128,
                hub_reserve: (state.hub_reserve - c.delta_hub_reserve) as u128,
                ..state
            },
        )
    }
}

/// The record of the asset bought once the trade has left it; `None` where
/// the reserve would not suffice or the hub reserve would leave 128 bits.
pub open spec fn after_out(state: AssetReserveState, c: AssetOutChange) -> Option<AssetReserveState> {
    if c.amount_out + c.fee_withdrawn > state.reserve || state.hub_reserve + c.delta_hub_reserve
        + c.extra_hub_reserve > u128::MAX {
        None
    } else {
        Some(
            AssetReserveState {
                reserve: (state.reserve - c.amount_out - c.fee_withdrawn) as u128,
                hub_reserve: (state.hub_reserve + c.delta_hub_reserve + c.extra_hub_reserve) as u128,
                ..state
            },
        )
    }
}

/// Applies the entering side of a trade to the record of the asset.
pub fn apply_in(state: &AssetReserveState, c: &AssetInChange) -> (res: Option<AssetReserveState>)
    ensures
        res == after_in(*state, *c),
{
    let reserve = match state.reserve.checked_add(c.amount_in) {
        Some(r) => r,
        None => { return None; },
    };
    if c.delta_hub_reserve > state.hub_reserve {
        return None;
    }
    Some(
        AssetReserveState {
            reserve,
            hub_reserve: state.hub_reserve - c.delta_hub_reserve,
            shares: state.shares,
            protocol_shares: state.protocol_shares,
            cap: state.cap,
            tradable: state.tradable,
        },
    )
}

/// Applies the leaving side of a trade to the record of the asset.
pub fn apply_out(state: &AssetReserveState, c: &AssetOutChange) -> (res: Option<AssetReserveState>)
    ensures
        res == after_out(*state, *c),
{
    let taken = match c.amount_out.checked_add(c.fee_withdrawn) {
        Some(t) => t,
        None => { return None; },
    };
    if taken > state.reserve {
        return None;
    }
    let hub = match state.hub_reserve.checked_add(c.delta_hub_reserve) {
        Some(h) => h,
        None => { return None; },
    };
    let hub = match hub.checked_add(c.extra_hub_reserve) {
        Some(h) => h,
        None => { return None; },
    };
    Some(
        AssetReserveState {
            reserve: state.reserve - taken,
            hub_reserve: hub,
            shares: state.shares,
            protocol_shares: state.protocol_shares,
            cap: state.cap,
            tradable: state.tradable,
        },
    )
}

/// The record once liquidity has been added; `None` where a value would
/// leave 128 bits.
pub open spec fn after_added(state: AssetReserveState, c: LiquidityAdded) -> Option<AssetReserveState> {
    if state.reserve + c.delta_reserve > u128::MAX || state.hub_reserve + c.delta_hub_reserve
        > u128::MAX || state.shares + c.delta_shares > u128::MAX {
        None
    } else {
        Some(
            AssetReserveState {
                reserve: (state.reserve + c.delta_reserve) as u128,
                hub_reserve: (state.hub_reserve + c.delta_hub_reserve) as u128,
                shares: (state.shares + c.delta_shares) as u128,
                ..state
            },
        )
    }
}

/// The record once liquidity has been removed; `None` where the record does
/// not hold what is removed, or the protocol's shares would be touched.
pub open spec fn after_removed(state: AssetReserveState, c: LiquidityRemoved) -> Option<
    AssetReserveState,
> {
    if c.delta_reserve > state.reserve || c.delta_hub_reserve > state.hub_reserve || c.delta_shares
        + state.protocol_shares > state.shares {
        None
    } else {
        Some(
            AssetReserveState {
                reserve: (state.reserve - c.delta_reserve) as u128,
                hub_reserve: (state.hub_reserve - c.delta_hub_reserve) as u128,
                shares: (state.shares - c.delta_shares) as u128,
                ..state
            },
        )
    }
}

/// Applies an addition of liquidity to the record of the asset.
pub fn apply_added(state: &AssetReserveState, c: &LiquidityAdded) -> (res: Option<AssetReserveState>)
    ensures
        res == after_added(*state, *c),
{
    let reserve = match state.reserve.checked_add(c.delta_reserve) {
        Some(r) => r,
        None => { return None; },
    };
    let hub_reserve = match state.hub_reserve.checked_add(c.delta_hub_reserve) {
        Some(r) => r,
        None => { return None; },
    };
    let shares = match state.shares.checked_add(c.delta_shares) {
        Some(r) => r,
        None => { return None; },
    };
    Some(
        AssetReserveState {
            reserve,
            hub_reserve,
            shares,
            protocol_shares: state.protocol_shares,
            cap: state.cap,
            tradable: state.tradable,
        },
    )
}

/// Applies a removal of liquidity to the record of the asset.
pub fn apply_removed(state: &AssetReserveState, c: &LiquidityRemoved) -> (res: Option<AssetReserveState>)
    ensures
        res == after_removed(*state, *c),
{
    if c.delta_reserve > state.reserve || c.delta_hub_reserve > state.hub_reserve {
        return None;
    }
    let kept = match c.delta_shares.checked_add(state.protocol_shares) {
        Some(k) => k,
        None => { return None; },
    };
    if kept > state.shares {
        return None;
    }
    Some(
        AssetReserveState {
            reserve: state.reserve - c.delta_reserve,
            hub_reserve: state.hub_reserve - c.delta_hub_reserve,
            shares: state.shares - c.delta_shares,
            protocol_shares: state.protocol_shares,
            cap: state.cap,
            tradable: state.tradable,
        },
    )
}

/// A fraction of a number is at most the number, and a fraction of a
/// fraction at most the fraction.
pub proof fn lemma_mul_floor_le(fee: Permill, x: nat)
    requires
        fee.in_range(),
    ensures
        fee.mul_floor_spec(x) <= x,
        fee.left_from_one_spec(x) <= x,
{
    let p = fee.parts();
    assert(x * p <= x * 1_000_000) by (nonlinear_arith)
        requires
            p <= 1_000_000,
    ;
    lemma_div_is_ordered((x * p) as int, (x * 1_000_000) as int, 1_000_000);
    lemma_div_multiples_vanish(x as int, 1_000_000);
    let q = (1_000_000 - p) as nat;
    assert(x * q <= x * 1_000_000) by (nonlinear_arith)
        requires
            q <= 1_000_000,
    ;
    lemma_div_is_ordered((x * q) as int, (x * 1_000_000) as int, 1_000_000);
}

/// The entering side of a sale takes no more hub asset than the asset has.
pub proof fn lemma_sell_in_bounded(
    reserve: nat,
    hub_reserve: nat,
    amount: nat,
    protocol_fee: Permill,
    burn_fee: Permill,
)
    requires
        hub_reserve <= u128::MAX,
        protocol_fee.in_range(),
        burn_fee.in_range(),
    ensures
        sell_in_spec(reserve, hub_reserve, amount, protocol_fee, burn_fee) matches Some(c) ==> {
            &&& c.amount_in == amount
            &&& c.delta_hub_reserve <= hub_reserve
            &&& c.hub_routed + c.protocol_fee == c.delta_hub_reserve
            &&& c.burned_protocol_fee <= c.protocol_fee
            &&& c.delta_hub_reserve == (amount * hub_reserve) / (reserve + amount)
            &&& c.protocol_fee == protocol_fee.mul_floor_spec(c.delta_hub_reserve as nat)
            &&& reserve + amount > 0
        },
{
    if sell_in_spec(reserve, hub_reserve, amount, protocol_fee, burn_fee) is Some {
        lemma_mul_div_le(amount, hub_reserve, reserve + amount);
        let d = mul_div_floor(amount, hub_reserve, reserve + amount)->Some_0;
        lemma_mul_floor_le(protocol_fee, d as nat);
        lemma_mul_floor_le(burn_fee, protocol_fee.mul_floor_spec(d as nat));
    }
}

/// The leaving side of a sale takes less than the reserve holds.
pub proof fn lemma_sell_out_bounded(
    reserve: nat,
    hub_reserve: nat,
    d_hub: nat,
    asset_fee: Permill,
    withdrawal: Permill,
)
    requires
        reserve <= u128::MAX,
        asset_fee.in_range(),
        withdrawal.in_range(),
    ensures
        sell_out_spec(reserve, hub_reserve, d_hub, asset_fee, withdrawal) matches Some(c) ==> {
            &&& c.delta_hub_reserve == d_hub
            &&& c.amount_out + c.asset_fee < reserve
            &&& c.amount_out + c.asset_fee == (reserve * d_hub) / (hub_reserve + d_hub)
            &&& c.amount_out == asset_fee.left_from_one_spec((c.amount_out + c.asset_fee) as nat)
            &&& c.fee_withdrawn <= c.asset_fee
            &&& hub_reserve + d_hub > 0
        },
{
    if sell_out_spec(reserve, hub_reserve, d_hub, asset_fee, withdrawal) is Some {
        lemma_mul_div_le(d_hub, reserve, hub_reserve + d_hub);
        let gross = mul_div_floor(reserve, d_hub, hub_reserve + d_hub)->Some_0;
        lemma_mul_floor_le(asset_fee, gross as nat);
        let fee = (gross - asset_fee.left_from_one_spec(gross as nat)) as nat;
        lemma_mul_floor_le(withdrawal, fee);
        let x = mul_div_floor(hub_reserve + d_hub, gross as nat, (reserve - gross) as nat)->Some_0;
        let minted = asset_fee.mul_floor_spec(x as nat);
        lemma_mul_floor_le(asset_fee, x as nat);
        if fee != 0 {
            lemma_mul_div_le(withdrawal.mul_floor_spec(fee), minted, fee);
        }
    }
}

/// The leaving side of a purchase takes less than the reserve holds, and
/// its fee is not negative.
pub proof fn lemma_buy_out_bounded(
    reserve: nat,
    hub_reserve: nat,
    amount: nat,
    asset_fee: Permill,
    withdrawal: Permill,
)
    requires
        reserve <= u128::MAX,
        asset_fee.in_range(),
        withdrawal.in_range(),
    ensures
        buy_out_spec(reserve, hub_reserve, amount, asset_fee, withdrawal) matches Some(c) ==> {
            &&& c.amount_out == amount
            &&& c.delta_hub_reserve >= 1
            &&& c.amount_out + c.asset_fee < reserve
            &&& c.amount_out + c.asset_fee == (reserve * c.delta_hub_reserve) / (hub_reserve
                + c.delta_hub_reserve)
            &&& c.fee_withdrawn <= c.asset_fee
            &&& amount < asset_fee.left_from_one_spec(reserve)
            &&& c.delta_hub_reserve == (hub_reserve * amount) / ((asset_fee.left_from_one_spec(reserve)
                - amount) as nat) + 1
        },
{
    if buy_out_spec(reserve, hub_reserve, amount, asset_fee, withdrawal) is Some {
        let reserve_no_fee = asset_fee.left_from_one_spec(reserve);
        lemma_mul_floor_le(asset_fee, reserve);
        let h = mul_div_floor(hub_reserve, amount, (reserve_no_fee - amount) as nat)->Some_0;
        let d_hub = (h + 1) as nat;
        lemma_mul_div_le(d_hub, reserve, hub_reserve + d_hub);
        lemma_buy_covers_amount(reserve, hub_reserve, amount, reserve_no_fee, d_hub);
        let gross = mul_div_floor(reserve, d_hub, hub_reserve + d_hub)->Some_0;
        lemma_mul_floor_le(withdrawal, (gross - amount) as nat);
    }
}

/// The entering side of a purchase takes less hub asset than the asset has.
pub proof fn lemma_buy_in_bounded(
    reserve: nat,
    hub_reserve: nat,
    hub_needed: nat,
    protocol_fee: Permill,
    burn_fee: Permill,
)
    requires
        hub_reserve <= u128::MAX,
        hub_needed <= u128::MAX,
        protocol_fee.in_range(),
        burn_fee.in_range(),
    ensures
        buy_in_spec(reserve, hub_reserve, hub_needed, protocol_fee, burn_fee) matches Some(c) ==> {
            &&& c.amount_in >= 1
            &&& c.delta_hub_reserve < hub_reserve
            &&& c.hub_routed == hub_needed
            &&& c.hub_routed + c.protocol_fee == c.delta_hub_reserve
            &&& c.burned_protocol_fee <= c.protocol_fee
            &&& c.amount_in == (reserve * c.delta_hub_reserve) / (hub_reserve - c.delta_hub_reserve)
                + 1
            &&& protocol_fee.parts() < 1_000_000
            &&& c.delta_hub_reserve == (hub_needed * 1_000_000) / ((1_000_000
                - protocol_fee.parts()) as nat)
        },
{
    if buy_in_spec(reserve, hub_reserve, hub_needed, protocol_fee, burn_fee) is Some {
        let complement = (1_000_000 - protocol_fee.parts()) as nat;
        assert(hub_needed * 1_000_000 >= hub_needed * complement) by (nonlinear_arith)
            requires
                complement <= 1_000_000,
        ;
        lemma_div_ge(hub_needed * 1_000_000, complement, hub_needed);
        let d = mul_div_floor(hub_needed, 1_000_000, complement)->Some_0;
        lemma_mul_floor_le(burn_fee, (d - hub_needed) as nat);
    }
}

/// A sale that the kernel can price keeps within the two records.
pub proof fn lemma_sell_bounded(
    asset_in: AssetReserveState,
    asset_out: AssetReserveState,
    amount: nat,
    asset_fee: Permill,
    protocol_fee: Permill,
    burn_fee: Permill,
    withdrawal: Permill,
)
    requires
        asset_fee.in_range(),
        protocol_fee.in_range(),
        burn_fee.in_range(),
        withdrawal.in_range(),
    ensures
        sell_spec(asset_in, asset_out, amount, asset_fee, protocol_fee, burn_fee, withdrawal) matches Some(
            c,
        ) ==> trade_change_bounded(asset_in, asset_out, c) && c.asset_in.amount_in == amount,
{
    lemma_sell_in_bounded(
        asset_in.reserve as nat,
        asset_in.hub_reserve as nat,
        amount,
        protocol_fee,
        burn_fee,
    );
    let i = sell_in_spec(
        asset_in.reserve as nat,
        asset_in.hub_reserve as nat,
        amount,
        protocol_fee,
        burn_fee,
    );
    if i is Some {
        lemma_sell_out_bounded(
            asset_out.reserve as nat,
            asset_out.hub_reserve as nat,
            i->Some_0.hub_routed as nat,
            asset_fee,
            withdrawal,
        );
    }
}

/// A purchase that the kernel can price keeps within the two records.
pub proof fn lemma_buy_bounded(
    asset_in: AssetReserveState,
    asset_out: AssetReserveState,
    amount: nat,
    asset_fee: Permill,
    protocol_fee: Permill,
    burn_fee: Permill,
    withdrawal: Permill,
)
    requires
        asset_fee.in_range(),
        protocol_fee.in_range(),
        burn_fee.in_range(),
        withdrawal.in_range(),
    ensures
        buy_spec(asset_in, asset_out, amount, asset_fee, protocol_fee, burn_fee, withdrawal) matches Some(
            c,
        ) ==> trade_change_bounded(asset_in, asset_out, c) && c.asset_out.amount_out == amount,
{
    lemma_buy_out_bounded(
        asset_out.reserve as nat,
        asset_out.hub_reserve as nat,
        amount,
        asset_fee,
        withdrawal,
    );
    let o = buy_out_spec(
        asset_out.reserve as nat,
        asset_out.hub_reserve as nat,
        amount,
        asset_fee,
        withdrawal,
    );
    if o is Some {
        lemma_buy_in_bounded(
            asset_in.reserve as nat,
            asset_in.hub_reserve as nat,
            o->Some_0.delta_hub_reserve as nat,
            protocol_fee,
            burn_fee,
        );
    }
}

} // verus!
