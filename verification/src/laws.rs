//! What holds of the pool whatever it is asked to do: conservation of the
//! hub asset, the direction in which a trade moves prices, the limits on the
//! size of a trade, and the gating of operations by the flags of an asset.

use vstd::prelude::*;
use crate::arith::{mul_div_floor, Balance, FixedU128, Permill};
use crate::error::Error;
use crate::math::{
    add_liquidity_spec, after_added, after_in, after_out, buy_out_spec, buy_spec, lemma_buy_bounded,
    lemma_buy_covers_amount, lemma_buy_in_bounded, lemma_buy_out_bounded, lemma_div_ge,
    lemma_floor_bounds, lemma_mul_div_le, lemma_mul_floor_le, lemma_sell_bounded,
    lemma_sell_in_bounded, lemma_sell_out_bounded, remove_liquidity_spec, sell_out_spec, sell_spec,
    trade_change_bounded, AssetInChange, AssetOutChange,
};
use crate::math::TradeStateChange;
use crate::model::{
    add_liquidity_outcome, add_token_outcome, buy_outcome, buy_report, deposit_outcome,
    hub_trade_committed, ratio_limit, remove_liquidity_outcome, sell_outcome, sell_report,
    set_tradable_outcome, trade_committed, transfer_outcome, PoolState,
};
use crate::state::{price_le, price_lt, AccountId, AssetId, AssetReserveState, PositionId};
use crate::tradability::Tradability;

verus! {

/// Conservation under sales: after every sale that succeeds, the hub
/// reserves of all assets still add up to the hub asset that the pool's
/// account holds, and the pool's invariant holds.
pub proof fn lemma_sell_conserves(
    s: PoolState,
    who: AccountId,
    asset_in: AssetId,
    asset_out: AssetId,
    amount: Balance,
    min_buy_amount: Balance,
)
    requires
        s.wf(),
    ensures
        sell_outcome(s, who, asset_in, asset_out, amount, min_buy_amount) matches Ok(t) ==> t.conserved()
            && t.wf(),
{
    lemma_trade_bounds(s, asset_in, asset_out, amount);
}

/// Conservation under purchases: after every purchase that succeeds, the hub
/// reserves of all assets still add up to the hub asset that the pool's
/// account holds, and the pool's invariant holds.
pub proof fn lemma_buy_conserves(
    s: PoolState,
    who: AccountId,
    asset_out: AssetId,
    asset_in: AssetId,
    amount: Balance,
    max_sell_amount: Balance,
)
    requires
        s.wf(),
    ensures
        buy_outcome(s, who, asset_out, asset_in, amount, max_sell_amount) matches Ok(t) ==> t.conserved()
            && t.wf(),
{
    lemma_trade_bounds(s, asset_in, asset_out, amount);
}

/// What the pricing kernel computes for a trade keeps within the records it
/// was computed from.
pub proof fn lemma_trade_bounds(s: PoolState, asset_in: AssetId, asset_out: AssetId, amount: Balance)
    requires
        s.config.valid(),
    ensures
        sell_spec(
            s.assets[asset_in],
            s.assets[asset_out],
            amount as nat,
            s.config.asset_fee,
            s.config.protocol_fee,
            s.config.burn_fee,
            s.config.on_trade_withdrawal,
        ) matches Some(c) ==> trade_change_bounded(s.assets[asset_in], s.assets[asset_out], c),
        buy_spec(
            s.assets[asset_in],
            s.assets[asset_out],
            amount as nat,
            s.config.asset_fee,
            s.config.protocol_fee,
            s.config.burn_fee,
            s.config.on_trade_withdrawal,
        ) matches Some(c) ==> trade_change_bounded(s.assets[asset_in], s.assets[asset_out], c),
{
    lemma_sell_bounded(
        s.assets[asset_in],
        s.assets[asset_out],
        amount as nat,
        s.config.asset_fee,
        s.config.protocol_fee,
        s.config.burn_fee,
        s.config.on_trade_withdrawal,
    );
    lemma_buy_bounded(
        s.assets[asset_in],
        s.assets[asset_out],
        amount as nat,
        s.config.asset_fee,
        s.config.protocol_fee,
        s.config.burn_fee,
        s.config.on_trade_withdrawal,
    );
}

/// Conservation under changes of liquidity: adding and withdrawing
/// liquidity keep the pool's invariant, and with it the equality of the hub
/// reserves and the hub asset held.
pub proof fn lemma_liquidity_conserves(
    s: PoolState,
    who: AccountId,
    asset: AssetId,
    amount: Balance,
    id: PositionId,
    shares: Balance,
)
    requires
        s.wf(),
    ensures
        add_liquidity_outcome(s, who, asset, amount) matches Ok(t) ==> t.conserved() && t.wf(),
        remove_liquidity_outcome(s, who, id, shares) matches Ok(t) ==> t.conserved() && t.wf(),
{
}

/// Conservation under the remaining operations: a new asset, a deposit, a
/// transfer and a change of flags keep the pool's invariant.
pub proof fn lemma_administration_conserves(
    s: PoolState,
    asset: AssetId,
    who: AccountId,
    to: AccountId,
    amount: Balance,
    initial_price: FixedU128,
    weight_cap: Permill,
    registered: bool,
    flags: Tradability,
)
    requires
        s.wf(),
        weight_cap.in_range(),
    ensures
        add_token_outcome(s, asset, initial_price, weight_cap, who, registered) matches Ok(t)
            ==> t.conserved() && t.wf(),
        deposit_outcome(s, asset, who, amount) matches Ok(t) ==> t.conserved() && t.wf(),
        transfer_outcome(s, asset, who, to, amount) matches Ok(t) ==> t.conserved() && t.wf(),
        set_tradable_outcome(s, asset, flags) matches Ok(t) ==> t.conserved() && t.wf(),
{
}

/// Price monotonicity of a sale. Selling an asset strictly lowers its price
/// in hub asset, whatever the fees. The price of the asset bought never
/// falls, and strictly rises wherever any hub asset reaches it.
pub proof fn lemma_sell_moves_prices(
    asset_in: AssetReserveState,
    asset_out: AssetReserveState,
    amount: Balance,
    asset_fee: Permill,
    protocol_fee: Permill,
    burn_fee: Permill,
    withdrawal: Permill,
)
    requires
        asset_in.active(),
        asset_out.active(),
        amount > 0,
        asset_fee.in_range(),
        protocol_fee.in_range(),
        burn_fee.in_range(),
        withdrawal.in_range(),
    ensures
        sell_spec(asset_in, asset_out, amount as nat, asset_fee, protocol_fee, burn_fee, withdrawal) matches Some(
            c,
        ) ==> {
            &&& after_in(asset_in, c.asset_in) matches Some(sold) ==> price_lt(sold, asset_in)
            &&& after_out(asset_out, c.asset_out) matches Some(bought) ==> price_le(asset_out, bought)
                && (c.asset_out.delta_hub_reserve > 0 ==> price_lt(asset_out, bought))
        },
{
    let r = sell_spec(asset_in, asset_out, amount as nat, asset_fee, protocol_fee, burn_fee, withdrawal);
    if r is Some {
        let c = r->Some_0;
        lemma_sell_bounded(
            asset_in,
            asset_out,
            amount as nat,
            asset_fee,
            protocol_fee,
            burn_fee,
            withdrawal,
        );
        lemma_in_side_lowers_price(asset_in, c.asset_in);
        lemma_out_side_raises_price(asset_out, c.asset_out);
    }
}

/// Price monotonicity of a purchase. Paying with an asset strictly lowers
/// its price in hub asset, and buying an asset strictly raises its price,
/// whatever the fees.
pub proof fn lemma_buy_moves_prices(
    asset_in: AssetReserveState,
    asset_out: AssetReserveState,
    amount: Balance,
    asset_fee: Permill,
    protocol_fee: Permill,
    burn_fee: Permill,
    withdrawal: Permill,
)
    requires
        asset_in.active(),
        asset_out.active(),
        asset_fee.in_range(),
        protocol_fee.in_range(),
        burn_fee.in_range(),
        withdrawal.in_range(),
    ensures
        buy_spec(asset_in, asset_out, amount as nat, asset_fee, protocol_fee, burn_fee, withdrawal) matches Some(
            c,
        ) ==> {
            &&& after_in(asset_in, c.asset_in) matches Some(sold) ==> price_lt(sold, asset_in)
            &&& after_out(asset_out, c.asset_out) matches Some(bought) ==> price_lt(asset_out, bought)
        },
{
    let r = buy_spec(asset_in, asset_out, amount as nat, asset_fee, protocol_fee, burn_fee, withdrawal);
    if r is Some {
        let c = r->Some_0;
        lemma_buy_bounded(
            asset_in,
            asset_out,
            amount as nat,
            asset_fee,
            protocol_fee,
            burn_fee,
            withdrawal,
        );
        lemma_in_side_lowers_price(asset_in, c.asset_in);
        lemma_out_side_raises_price(asset_out, c.asset_out);
    }
}

/// An asset that gains reserve and loses no less than nothing of its hub
/// reserve has a strictly lower price.
pub proof fn lemma_in_side_lowers_price(state: AssetReserveState, c: AssetInChange)
    requires
        state.active(),
        c.amount_in > 0,
    ensures
        after_in(state, c) matches Some(sold) ==> price_lt(sold, state),
{
    if after_in(state, c) is Some {
        let q = state.hub_reserve as int;
        let r = state.reserve as int;
        let d = c.delta_hub_reserve as int;
        let a = c.amount_in as int;
        assert((q - d) * r < q * (r + a)) by (nonlinear_arith)
            requires
                q > 0,
                r > 0,
                a > 0,
                0 <= d <= q,
        ;
    }
}

/// An asset that loses reserve and gains hub reserve has a price that is
/// not lower, and strictly higher where it gains any hub reserve.
pub proof fn lemma_out_side_raises_price(state: AssetReserveState, c: AssetOutChange)
    requires
        state.active(),
    ensures
        after_out(state, c) matches Some(bought) ==> price_le(state, bought) && (c.delta_hub_reserve
            > 0 ==> price_lt(state, bought)),
{
    if after_out(state, c) is Some {
        let q = state.hub_reserve as int;
        let r = state.reserve as int;
        let up = c.delta_hub_reserve as int + c.extra_hub_reserve as int;
        let down = c.amount_out as int + c.fee_withdrawn as int;
        assert(q * (r - down) <= (q + up) * r) by (nonlinear_arith)
            requires
                q > 0,
                r > 0,
                up >= 0,
                0 <= down <= r,
        ;
        if c.delta_hub_reserve > 0 {
            assert(q * (r - down) < (q + up) * r) by (nonlinear_arith)
                requires
                    q > 0,
                    r > 0,
                    up > 0,
                    0 <= down <= r,
            ;
        }
    }
}

/// An amount above the `n`-th part of a reserve is above the limit that the
/// ratio `n` sets.
pub proof fn lemma_beyond_ratio(amount: Balance, reserve: Balance, ratio: Balance)
    requires
        ratio > 0,
    ensures
        amount > ratio_limit(reserve, ratio) <==> amount * ratio > reserve,
{
    lemma_floor_bounds(reserve as nat, ratio as nat);
    let q = reserve as int / ratio as int;
    let a = amount as int;
    let n = ratio as int;
    if a > q {
        assert(a * n >= (q + 1) * n) by (nonlinear_arith)
            requires
                a >= q + 1,
                n > 0,
        ;
    } else {
        assert(a * n <= q * n) by (nonlinear_arith)
            requires
                a <= q,
                n > 0,
        ;
    }
}

/// Ratio limit on what enters: a sale of more than the allowed part of the
/// reserve of the asset sold fails with `MaxInRatioExceeded`, provided that
/// nothing that is checked before the size refuses it.
pub proof fn lemma_sell_beyond_in_ratio_fails(
    s: PoolState,
    who: AccountId,
    asset_in: AssetId,
    asset_out: AssetId,
    amount: Balance,
    min_buy_amount: Balance,
)
    requires
        asset_in != asset_out,
        amount >= s.config.min_trading_amount,
        s.balances[(who, asset_in)] >= amount,
        s.assets.dom().contains(asset_in),
        s.assets.dom().contains(asset_out),
        asset_in != s.config.hub_asset,
        asset_out != s.config.hub_asset,
        s.assets[asset_in].tradable.sell,
        s.assets[asset_out].tradable.buy,
        s.config.max_in_ratio > 0,
        amount * s.config.max_in_ratio > s.assets[asset_in].reserve,
    ensures
        sell_outcome(s, who, asset_in, asset_out, amount, min_buy_amount) == Err::<PoolState, Error>(
            Error::MaxInRatioExceeded,
        ),
{
    lemma_beyond_ratio(amount, s.assets[asset_in].reserve, s.config.max_in_ratio);
}

/// Ratio limit on what leaves: a sale that would pay out more than the
/// allowed part of the reserve of the asset bought fails with
/// `MaxOutRatioExceeded`, provided that nothing that is checked before
/// refuses it.
pub proof fn lemma_sell_beyond_out_ratio_fails(
    s: PoolState,
    who: AccountId,
    asset_in: AssetId,
    asset_out: AssetId,
    amount: Balance,
    min_buy_amount: Balance,
)
    requires
        asset_in != asset_out,
        amount >= s.config.min_trading_amount,
        s.balances[(who, asset_in)] >= amount,
        s.assets.dom().contains(asset_in),
        s.assets.dom().contains(asset_out),
        asset_in != s.config.hub_asset,
        asset_out != s.config.hub_asset,
        s.assets[asset_in].tradable.sell,
        s.assets[asset_out].tradable.buy,
        s.config.max_in_ratio > 0,
        amount * s.config.max_in_ratio <= s.assets[asset_in].reserve,
        sell_report(s, who, asset_in, asset_out, amount) matches Some(t) && t.amount_out
            >= min_buy_amount && t.amount_out * s.config.max_out_ratio > s.assets[asset_out].reserve,
        s.config.max_out_ratio > 0,
    ensures
        sell_outcome(s, who, asset_in, asset_out, amount, min_buy_amount) == Err::<PoolState, Error>(
            Error::MaxOutRatioExceeded,
        ),
{
    lemma_beyond_ratio(amount, s.assets[asset_in].reserve, s.config.max_in_ratio);
    let v = sell_report(s, who, asset_in, asset_out, amount)->Some_0.amount_out;
    lemma_beyond_ratio(v, s.assets[asset_out].reserve, s.config.max_out_ratio);
}

/// Ratio limits, the other way round: a trade that succeeds brought in no
/// more than the allowed part of the reserve it entered, and took out no
/// more than the allowed part of the reserve it left.
pub proof fn lemma_trade_within_ratios(
    s: PoolState,
    who: AccountId,
    asset_in: AssetId,
    asset_out: AssetId,
    amount: Balance,
    limit: Balance,
)
    requires
        asset_in != s.config.hub_asset,
    ensures
        sell_outcome(s, who, asset_in, asset_out, amount, limit) is Ok ==> {
            &&& amount * s.config.max_in_ratio <= s.assets[asset_in].reserve
            &&& sell_report(s, who, asset_in, asset_out, amount) matches Some(t) && t.amount_out
                * s.config.max_out_ratio <= s.assets[asset_out].reserve
        },
        buy_outcome(s, who, asset_out, asset_in, amount, limit) is Ok ==> {
            &&& amount * s.config.max_out_ratio <= s.assets[asset_out].reserve
            &&& buy_report(s, who, asset_out, asset_in, amount) matches Some(t) && t.amount_in
                * s.config.max_in_ratio <= s.assets[asset_in].reserve
        },
{
    if sell_outcome(s, who, asset_in, asset_out, amount, limit) is Ok {
        lemma_beyond_ratio(amount, s.assets[asset_in].reserve, s.config.max_in_ratio);
        let v = sell_report(s, who, asset_in, asset_out, amount)->Some_0.amount_out;
        lemma_beyond_ratio(v, s.assets[asset_out].reserve, s.config.max_out_ratio);
    }
    if buy_outcome(s, who, asset_out, asset_in, amount, limit) is Ok {
        lemma_beyond_ratio(amount, s.assets[asset_out].reserve, s.config.max_out_ratio);
        let v = buy_report(s, who, asset_out, asset_in, amount)->Some_0.amount_in;
        lemma_beyond_ratio(v, s.assets[asset_in].reserve, s.config.max_in_ratio);
    }
}

/// Gating of trades: while the asset sold does not admit selling, or the
/// asset bought does not admit buying, a sale and a purchase are refused as
/// not allowed, provided that nothing that is checked before the flags
/// refuses them.
pub proof fn lemma_trade_gated(
    s: PoolState,
    who: AccountId,
    asset_in: AssetId,
    asset_out: AssetId,
    amount: Balance,
    limit: Balance,
)
    requires
        asset_in != asset_out,
        amount >= s.config.min_trading_amount,
        s.assets.dom().contains(asset_in),
        s.assets.dom().contains(asset_out),
        asset_in != s.config.hub_asset,
        asset_out != s.config.hub_asset,
        !s.assets[asset_in].tradable.sell || !s.assets[asset_out].tradable.buy,
    ensures
        s.balances[(who, asset_in)] >= amount ==> sell_outcome(s, who, asset_in, asset_out, amount, limit)
            == Err::<PoolState, Error>(Error::NotAllowed),
        buy_outcome(s, who, asset_out, asset_in, amount, limit) == Err::<PoolState, Error>(
            Error::NotAllowed,
        ),
{
}

/// Gating of liquidity: while the asset does not admit it, liquidity is
/// neither added nor withdrawn, provided that nothing that is checked before
/// the flags refuses the request.
pub proof fn lemma_liquidity_gated(
    s: PoolState,
    who: AccountId,
    asset: AssetId,
    amount: Balance,
    id: PositionId,
    shares: Balance,
)
    requires
        s.assets.dom().contains(asset),
    ensures
        amount >= s.config.min_pool_liquidity && !s.assets[asset].tradable.add_liquidity
            ==> add_liquidity_outcome(s, who, asset, amount) == Err::<PoolState, Error>(Error::NotAllowed),
        s.positions.dom().contains(id) && s.positions[id].owner == who && s.positions[id].asset_id
            == asset && 0 < shares <= s.positions[id].shares && !s.assets[asset].tradable.remove_liquidity
            ==> remove_liquidity_outcome(s, who, id, shares) == Err::<PoolState, Error>(
            Error::NotAllowed,
        ),
{
}

/// Restoring flags: replacing the flags of an asset and then putting the
/// former flags back gives the former pool, so whatever succeeded before the
/// flags were cleared succeeds again once they are restored.
pub proof fn lemma_flags_restored(s: PoolState, asset: AssetId, flags: Tradability)
    requires
        s.assets.dom().contains(asset),
    ensures
        set_tradable_outcome(s, asset, flags) matches Ok(cleared) && set_tradable_outcome(
            cleared,
            asset,
            s.assets[asset].tradable,
        ) == Ok::<PoolState, Error>(s),
{
    let cleared = set_tradable_outcome(s, asset, flags)->Ok_0;
    let restored = set_tradable_outcome(cleared, asset, s.assets[asset].tradable)->Ok_0;
    assert(restored.assets =~= s.assets);
}

/// A change of flags changes nothing but flags: every reserve, every share
/// and every balance stays as it was.
pub proof fn lemma_flags_touch_nothing_else(s: PoolState, asset: AssetId, flags: Tradability)
    ensures
        set_tradable_outcome(s, asset, flags) matches Ok(t) ==> {
            &&& t.balances == s.balances
            &&& t.hub_liquidity == s.hub_liquidity
            &&& t.positions == s.positions
            &&& t.assets.dom() == s.assets.dom()
            &&& t.assets[asset] == (AssetReserveState { tradable: flags, ..s.assets[asset] })
            &&& forall|other: AssetId| other != asset ==> t.assets[other] == s.assets[other]
        },
{
    if set_tradable_outcome(s, asset, flags) is Ok {
        let t = set_tradable_outcome(s, asset, flags)->Ok_0;
        assert(t.assets.dom() =~= s.assets.dom());
    }
}

/// Algebra behind the invariance of the price under the asset fee: the hub
/// asset minted for the fee that stays is not too much.
proof fn lemma_minted_not_above(
    r0: int,
    q0: int,
    gross: int,
    f: int,
    m: int,
    x: int,
    minted: int,
    fee: int,
    withdrawn: int,
    cut: int,
)
    requires
        r0 > 0,
        q0 >= 0,
        gross >= 0,
        f >= 0,
        m > 0,
        x >= 0,
        minted >= 0,
        cut >= 0,
        fee > 0,
        0 <= withdrawn <= fee,
        x * r0 <= q0 * gross,
        minted * m <= x * f,
        gross * f <= fee * m,
        withdrawn * minted < (cut + 1) * fee,
    ensures
        (minted - cut) * r0 < q0 * (fee - withdrawn) + r0,
{
    let k = fee - withdrawn;
    let e = minted - cut;
    assert(e * fee < minted * k + fee) by (nonlinear_arith)
        requires
            e == minted - cut,
            k == fee - withdrawn,
            withdrawn * minted < (cut + 1) * fee,
    ;
    assert(minted * m * r0 <= x * f * r0) by (nonlinear_arith)
        requires
            minted * m <= x * f,
            r0 > 0,
    ;
    assert(x * f * r0 <= q0 * gross * f) by (nonlinear_arith)
        requires
            x * r0 <= q0 * gross,
            f >= 0,
    ;
    assert(q0 * gross * f <= q0 * fee * m) by (nonlinear_arith)
        requires
            gross * f <= fee * m,
            q0 >= 0,
    ;
    assert(minted * r0 <= q0 * fee) by (nonlinear_arith)
        requires
            minted * m * r0 <= q0 * fee * m,
            m > 0,
    ;
    assert(minted * k * r0 <= q0 * fee * k) by (nonlinear_arith)
        requires
            minted * r0 <= q0 * fee,
            k >= 0,
    ;
    assert(e * fee * r0 < (minted * k + fee) * r0) by (nonlinear_arith)
        requires
            e * fee < minted * k + fee,
            r0 > 0,
    ;
    assert(e * r0 * fee < (q0 * k + r0) * fee) by (nonlinear_arith)
        requires
            e * fee * r0 < (minted * k + fee) * r0,
            minted * k * r0 <= q0 * fee * k,
    ;
    assert(e * r0 < q0 * k + r0) by (nonlinear_arith)
        requires
            e * r0 * fee < (q0 * k + r0) * fee,
            fee > 0,
    ;
}

/// Algebra behind the invariance of the price under the asset fee: the hub
/// asset minted for the fee that stays is not too little.
proof fn lemma_minted_not_below(
    r0: int,
    q0: int,
    gross: int,
    f: int,
    m: int,
    x: int,
    minted: int,
    fee: int,
    withdrawn: int,
    cut: int,
)
    requires
        r0 > 0,
        q0 >= 0,
        gross >= 0,
        0 <= f <= m,
        m > 0,
        x >= 0,
        minted >= 0,
        cut >= 0,
        fee > 0,
        0 <= withdrawn <= fee,
        q0 * gross < (x + 1) * r0,
        x * f < (minted + 1) * m,
        (fee - 1) * m < gross * f,
        cut * fee <= withdrawn * minted,
    ensures
        q0 * (fee - withdrawn) < (minted - cut) * r0 + q0 + 2 * r0,
{
    let k = fee - withdrawn;
    let e = minted - cut;
    assert(x * r0 * f >= q0 * gross * f - r0 * f) by (nonlinear_arith)
        requires
            q0 * gross < (x + 1) * r0,
            f >= 0,
    ;
    assert(q0 * gross * f >= q0 * (fee - 1) * m) by (nonlinear_arith)
        requires
            (fee - 1) * m < gross * f,
            q0 >= 0,
    ;
    assert(minted * m * r0 > x * r0 * f - m * r0) by (nonlinear_arith)
        requires
            x * f < (minted + 1) * m,
            r0 > 0,
    ;
    assert(r0 * f <= m * r0) by (nonlinear_arith)
        requires
            f <= m,
            r0 > 0,
    ;
    assert(minted * r0 * m > (q0 * (fee - 1) - 2 * r0) * m) by (nonlinear_arith)
        requires
            minted * m * r0 > x * r0 * f - m * r0,
            x * r0 * f >= q0 * gross * f - r0 * f,
            q0 * gross * f >= q0 * (fee - 1) * m,
            r0 * f <= m * r0,
    ;
    assert(minted * r0 > q0 * (fee - 1) - 2 * r0) by (nonlinear_arith)
        requires
            minted * r0 * m > (q0 * (fee - 1) - 2 * r0) * m,
            m > 0,
    ;
    assert(e * fee >= minted * k) by (nonlinear_arith)
        requires
            e == minted - cut,
            k == fee - withdrawn,
            cut * fee <= withdrawn * minted,
    ;
    if k == 0 {
        assert(e * r0 >= 0) by (nonlinear_arith)
            requires
                e * fee >= minted * k,
                k == 0,
                fee > 0,
                r0 > 0,
        ;
        assert(q0 * k == 0) by (nonlinear_arith)
            requires
                k == 0,
        ;
    } else {
        assert(e * r0 * fee >= minted * r0 * k) by (nonlinear_arith)
            requires
                e * fee >= minted * k,
                r0 > 0,
        ;
        assert((q0 + 2 * r0) * fee >= (q0 + 2 * r0) * k) by (nonlinear_arith)
            requires
                k <= fee,
                q0 >= 0,
                r0 > 0,
        ;
        assert((minted * r0 + q0 + 2 * r0) * k > q0 * fee * k) by (nonlinear_arith)
            requires
                minted * r0 > q0 * (fee - 1) - 2 * r0,
                k > 0,
        ;
        assert((e * r0 + q0 + 2 * r0) * fee > q0 * k * fee) by (nonlinear_arith)
            requires
                e * r0 * fee >= minted * r0 * k,
                (q0 + 2 * r0) * fee >= (q0 + 2 * r0) * k,
                (minted * r0 + q0 + 2 * r0) * k > q0 * fee * k,
        ;
        assert(e * r0 + q0 + 2 * r0 > q0 * k) by (nonlinear_arith)
            requires
                (e * r0 + q0 + 2 * r0) * fee > q0 * k * fee,
                fee > 0,
        ;
    }
}

/// Fee invariance of the price. Let a sale bring `d_hub` of hub asset to an
/// asset. Without asset fee the asset is left with the reserve `r0` and the
/// hub reserve `q0`. With an asset fee, of which any fraction is withdrawn,
/// it is left with `rf` and `qf`, and the two prices differ by less than
/// `(q0 / r0 + 2) / rf`:
/// `qf * r0 < q0 * rf + r0` and `q0 * rf < qf * r0 + q0 + 2 * r0`.
pub proof fn lemma_fee_keeps_price(
    reserve: Balance,
    hub_reserve: Balance,
    d_hub: Balance,
    asset_fee: Permill,
    withdrawal: Permill,
)
    requires
        asset_fee.in_range(),
        withdrawal.in_range(),
    ensures
        sell_out_spec(reserve as nat, hub_reserve as nat, d_hub as nat, asset_fee, withdrawal) matches Some(
            c,
        ) ==> ({
            let gross = c.amount_out + c.asset_fee;
            let r0 = reserve - gross;
            let q0 = hub_reserve + d_hub;
            let rf = reserve - c.amount_out - c.fee_withdrawn;
            let qf = hub_reserve + d_hub + c.extra_hub_reserve;
            &&& gross == (reserve as nat * d_hub as nat) / ((hub_reserve + d_hub) as nat)
            &&& r0 > 0
            &&& rf >= r0
            &&& qf * r0 < q0 * rf + r0
            &&& q0 * rf < qf * r0 + q0 + 2 * r0
        }),
{
    let r = sell_out_spec(reserve as nat, hub_reserve as nat, d_hub as nat, asset_fee, withdrawal);
    if r is Some {
        let c = r->Some_0;
        lemma_sell_out_bounded(reserve as nat, hub_reserve as nat, d_hub as nat, asset_fee, withdrawal);
        let m: int = 1_000_000;
        let f = asset_fee.parts() as int;
        let g = mul_div_floor(reserve as nat, d_hub as nat, (hub_reserve + d_hub) as nat)->Some_0;
        let gross = g as int;
        assert(gross == (reserve as nat * d_hub as nat) / ((hub_reserve + d_hub) as nat));
        let r0 = reserve - gross;
        let q0 = hub_reserve + d_hub;
        let net = asset_fee.left_from_one_spec(g as nat) as int;
        let fee = gross - net;
        let withdrawn = withdrawal.mul_floor_spec(fee as nat) as int;
        let xx = mul_div_floor(q0 as nat, g as nat, r0 as nat)->Some_0;
        let x = xx as int;
        assert(x == (q0 as nat * g as nat) / (r0 as nat));
        let minted = asset_fee.mul_floor_spec(xx as nat) as int;
        let cut: int = if fee == 0 {
            0
        } else {
            ((withdrawn as nat * minted as nat) / (fee as nat)) as int
        };
        lemma_mul_floor_le(asset_fee, x as nat);
        lemma_mul_floor_le(asset_fee, gross as nat);
        lemma_mul_floor_le(withdrawal, fee as nat);
        assert(c.amount_out == net);
        assert(c.asset_fee == fee);
        assert(c.fee_withdrawn == withdrawn);
        if fee != 0 {
            lemma_mul_div_le(withdrawn as nat, minted as nat, fee as nat);
        }
        assert(c.extra_hub_reserve == minted - cut);
        lemma_floor_bounds(q0 as nat * gross as nat, r0 as nat);
        lemma_floor_bounds(x as nat * f as nat, m as nat);
        lemma_floor_bounds(gross as nat * (m - f) as nat, m as nat);
        assert(gross * (m - f) == gross * m - gross * f) by (nonlinear_arith);
        assert((net + 1) * m == net * m + m) by (nonlinear_arith);
        assert((fee - 1) * m == gross * m - net * m - m) by (nonlinear_arith)
            requires
                fee == gross - net,
        ;
        assert(fee * m == gross * m - net * m) by (nonlinear_arith)
            requires
                fee == gross - net,
        ;
        if fee == 0 {
            assert(gross * f <= 0);
            assert(gross * f >= 0) by (nonlinear_arith)
                requires
                    gross >= 0,
                    f >= 0,
            ;
            if f == 0 {
                assert(x * f == 0) by (nonlinear_arith)
                    requires
                        f == 0,
                ;
            } else {
                assert(gross == 0) by (nonlinear_arith)
                    requires
                        gross * f == 0,
                        f > 0,
                        gross >= 0,
                ;
                assert(q0 * gross == 0) by (nonlinear_arith)
                    requires
                        gross == 0,
                ;
                assert(x == 0) by (nonlinear_arith)
                    requires
                        x * r0 <= 0,
                        x >= 0,
                        r0 > 0,
                ;
                assert(x * f == 0) by (nonlinear_arith)
                    requires
                        x == 0,
                ;
            }
            assert(minted == 0) by (nonlinear_arith)
                requires
                    minted * m <= 0,
                    minted >= 0,
                    m > 0,
            ;
            assert(q0 * (r0 + 0) == q0 * r0) by (nonlinear_arith);
        } else {
            lemma_floor_bounds(withdrawn as nat * minted as nat, fee as nat);
            lemma_minted_not_above(r0, q0, gross, f, m, x, minted, fee, withdrawn, cut);
            lemma_minted_not_below(r0, q0, gross, f, m, x, minted, fee, withdrawn, cut);
            let k = fee - withdrawn;
            let e = minted - cut;
            assert((q0 + e) * r0 == q0 * r0 + e * r0) by (nonlinear_arith);
            assert(q0 * (r0 + k) == q0 * r0 + q0 * k) by (nonlinear_arith);
        }
    }
}

/// The product of reserve and hub reserve, which a trade without fees and
/// without rounding would keep as it is.
pub open spec fn product(state: AssetReserveState) -> nat {
    state.reserve as nat * state.hub_reserve as nat
}

/// Rounding favours the pool. On each side of a sale and of a purchase the
/// product of reserve and hub reserve does not fall: the pool never gives
/// more than the curve allows for what it takes.
pub proof fn lemma_trade_keeps_products(
    asset_in: AssetReserveState,
    asset_out: AssetReserveState,
    amount: Balance,
    asset_fee: Permill,
    protocol_fee: Permill,
    burn_fee: Permill,
    withdrawal: Permill,
)
    requires
        asset_fee.in_range(),
        protocol_fee.in_range(),
        burn_fee.in_range(),
        withdrawal.in_range(),
    ensures
        sell_spec(asset_in, asset_out, amount as nat, asset_fee, protocol_fee, burn_fee, withdrawal) matches Some(
            c,
        ) ==> {
            &&& after_in(asset_in, c.asset_in) matches Some(sold) ==> product(sold) >= product(asset_in)
            &&& after_out(asset_out, c.asset_out) matches Some(bought) ==> product(bought) >= product(
                asset_out,
            )
        },
        buy_spec(asset_in, asset_out, amount as nat, asset_fee, protocol_fee, burn_fee, withdrawal) matches Some(
            c,
        ) ==> {
            &&& after_in(asset_in, c.asset_in) matches Some(sold) ==> product(sold) >= product(asset_in)
            &&& after_out(asset_out, c.asset_out) matches Some(bought) ==> product(bought) >= product(
                asset_out,
            )
        },
{
    let ri = asset_in.reserve as nat;
    let qi = asset_in.hub_reserve as nat;
    let ro = asset_out.reserve as nat;
    let qo = asset_out.hub_reserve as nat;
    let sold = sell_spec(asset_in, asset_out, amount as nat, asset_fee, protocol_fee, burn_fee, withdrawal);
    if sold is Some {
        let c = sold->Some_0;
        lemma_sell_in_bounded(ri, qi, amount as nat, protocol_fee, burn_fee);
        lemma_sell_out_bounded(ro, qo, c.asset_in.hub_routed as nat, asset_fee, withdrawal);
        lemma_in_product(ri, qi, c.asset_in.amount_in as nat, c.asset_in.delta_hub_reserve as nat);
        lemma_out_product(
            ro,
            qo,
            c.asset_out.delta_hub_reserve as nat,
            (c.asset_out.amount_out + c.asset_out.asset_fee) as nat,
            (c.asset_out.amount_out + c.asset_out.fee_withdrawn) as nat,
            c.asset_out.extra_hub_reserve as nat,
        );
    }
    let bought = buy_spec(asset_in, asset_out, amount as nat, asset_fee, protocol_fee, burn_fee, withdrawal);
    if bought is Some {
        let c = bought->Some_0;
        lemma_buy_out_bounded(ro, qo, amount as nat, asset_fee, withdrawal);
        lemma_buy_in_bounded(ri, qi, c.asset_out.delta_hub_reserve as nat, protocol_fee, burn_fee);
        let d = c.asset_in.delta_hub_reserve as nat;
        lemma_floor_bounds(ri * d, (qi - d) as nat);
        lemma_in_product_raised(ri, qi, c.asset_in.amount_in as nat, d);
        lemma_out_product(
            ro,
            qo,
            c.asset_out.delta_hub_reserve as nat,
            (c.asset_out.amount_out + c.asset_out.asset_fee) as nat,
            (c.asset_out.amount_out + c.asset_out.fee_withdrawn) as nat,
            c.asset_out.extra_hub_reserve as nat,
        );
    }
}

/// The entering side of a sale: the hub asset given is rounded down.
proof fn lemma_in_product(r: nat, q: nat, a: nat, d: nat)
    requires
        r + a > 0,
        d == (a * q) / (r + a),
        d <= q,
    ensures
        (r + a) * (q - d) >= r * q,
{
    lemma_floor_bounds(a * q, r + a);
    assert((r + a) * (q - d) >= r * q) by (nonlinear_arith)
        requires
            d * (r + a) <= a * q,
            d <= q,
    ;
}

/// The entering side of a purchase: the amount charged is raised by one.
proof fn lemma_in_product_raised(r: nat, q: nat, a: nat, d: nat)
    requires
        d < q,
        r * d < a * (q - d),
    ensures
        (r + a) * (q - d) >= r * q,
{
    assert((r + a) * (q - d) >= r * q) by (nonlinear_arith)
        requires
            r * d < a * (q - d),
            d < q,
    ;
}

/// The leaving side: what leaves the reserve is at most what the curve pays
/// for the hub asset that arrives.
proof fn lemma_out_product(r: nat, q: nat, d: nat, gross: nat, leaves: nat, extra: nat)
    requires
        q + d > 0,
        gross == (r * d) / (q + d),
        leaves <= gross,
        gross <= r,
    ensures
        (r - leaves) * (q + d + extra) >= r * q,
{
    lemma_floor_bounds(r * d, q + d);
    assert((r - gross) * (q + d) >= r * q) by (nonlinear_arith)
        requires
            gross * (q + d) <= r * d,
            gross <= r,
    ;
    assert((r - leaves) * (q + d + extra) >= (r - gross) * (q + d)) by (nonlinear_arith)
        requires
            leaves <= gross,
            gross <= r,
            extra >= 0,
            q + d > 0,
    ;
}

/// A trade keeps active assets active: neither reserve nor hub reserve of
/// an asset with both is emptied by a sale or a purchase.
pub proof fn lemma_trade_keeps_assets_active(
    asset_in: AssetReserveState,
    asset_out: AssetReserveState,
    amount: Balance,
    asset_fee: Permill,
    protocol_fee: Permill,
    burn_fee: Permill,
    withdrawal: Permill,
)
    requires
        asset_in.active(),
        asset_out.active(),
        asset_fee.in_range(),
        protocol_fee.in_range(),
        burn_fee.in_range(),
        withdrawal.in_range(),
    ensures
        sell_spec(asset_in, asset_out, amount as nat, asset_fee, protocol_fee, burn_fee, withdrawal) matches Some(
            c,
        ) ==> {
            &&& after_in(asset_in, c.asset_in) matches Some(sold) ==> sold.active()
            &&& after_out(asset_out, c.asset_out) matches Some(bought) ==> bought.active()
        },
        buy_spec(asset_in, asset_out, amount as nat, asset_fee, protocol_fee, burn_fee, withdrawal) matches Some(
            c,
        ) ==> {
            &&& after_in(asset_in, c.asset_in) matches Some(sold) ==> sold.active()
            &&& after_out(asset_out, c.asset_out) matches Some(bought) ==> bought.active()
        },
{
    let ri = asset_in.reserve as nat;
    let qi = asset_in.hub_reserve as nat;
    lemma_sell_bounded(asset_in, asset_out, amount as nat, asset_fee, protocol_fee, burn_fee, withdrawal);
    lemma_buy_bounded(asset_in, asset_out, amount as nat, asset_fee, protocol_fee, burn_fee, withdrawal);
    let sold = sell_spec(asset_in, asset_out, amount as nat, asset_fee, protocol_fee, burn_fee, withdrawal);
    if sold is Some {
        let c = sold->Some_0;
        lemma_sell_in_bounded(ri, qi, amount as nat, protocol_fee, burn_fee);
        let d = c.asset_in.delta_hub_reserve as nat;
        lemma_floor_bounds(amount as nat * qi, ri + amount as nat);
        assert(d < qi) by (nonlinear_arith)
            requires
                d * (ri + amount as nat) <= amount as nat * qi,
                ri > 0,
                qi > 0,
        ;
    }
}

/// Adding liquidity and withdrawing the shares received for it pays out no
/// more than was added.
pub proof fn lemma_liquidity_round_trip(state: AssetReserveState, amount: Balance)
    ensures
        add_liquidity_spec(state, amount as nat) matches Some(added)
            ==> after_added(state, added) matches Some(grown)
            ==> remove_liquidity_spec(grown, added.delta_shares as nat) matches Some(removed)
            ==> removed.delta_reserve <= amount && removed.delta_hub_reserve <= added.delta_hub_reserve,
{
    let a = add_liquidity_spec(state, amount as nat);
    if a is Some {
        let added = a->Some_0;
        let g = after_added(state, added);
        if g is Some {
            let grown = g->Some_0;
            let r = remove_liquidity_spec(grown, added.delta_shares as nat);
            if r is Some {
                let removed = r->Some_0;
                let big_r = state.reserve as nat;
                let big_q = state.hub_reserve as nat;
                let big_s = state.shares as nat;
                let am = amount as nat;
                let s = added.delta_shares as nat;
                let h = added.delta_hub_reserve as nat;
                let dr = removed.delta_reserve as nat;
                let dh = removed.delta_hub_reserve as nat;
                lemma_floor_bounds(big_s * am, big_r);
                lemma_floor_bounds(big_q * am, big_r);
                lemma_floor_bounds((big_r + am) * s, big_s + s);
                lemma_floor_bounds((big_q + h) * dr, big_r + am);
                assert(dr <= am) by (nonlinear_arith)
                    requires
                        s * big_r <= big_s * am,
                        dr * (big_s + s) <= (big_r + am) * s,
                        big_s + s > 0,
                        big_r > 0,
                ;
                assert(dh <= h) by (nonlinear_arith)
                    requires
                        dh * (big_r + am) <= (big_q + h) * dr,
                        dr <= am,
                        big_q * am < (h + 1) * big_r,
                        big_r > 0,
                ;
            }
        }
    }
}

/// Fee invariance of the price after a purchase: the hub asset minted for
/// the fee that stays is the fee at the price without fee, rounded down, so
/// the price with the fee is not above the price without it, and below it by
/// less than one over the reserve.
pub proof fn lemma_fee_keeps_price_of_purchase(
    reserve: Balance,
    hub_reserve: Balance,
    amount: Balance,
    asset_fee: Permill,
    withdrawal: Permill,
)
    requires
        asset_fee.in_range(),
        withdrawal.in_range(),
    ensures
        buy_out_spec(reserve as nat, hub_reserve as nat, amount as nat, asset_fee, withdrawal) matches Some(
            c,
        ) ==> ({
            let gross = c.amount_out + c.asset_fee;
            let r0 = reserve - gross;
            let q0 = hub_reserve + c.delta_hub_reserve;
            let rf = reserve - c.amount_out - c.fee_withdrawn;
            let qf = hub_reserve + c.delta_hub_reserve + c.extra_hub_reserve;
            &&& r0 > 0
            &&& rf >= r0
            &&& qf * r0 <= q0 * rf
            &&& q0 * rf < qf * r0 + r0
        }),
{
    let r = buy_out_spec(reserve as nat, hub_reserve as nat, amount as nat, asset_fee, withdrawal);
    if r is Some {
        let c = r->Some_0;
        lemma_buy_out_bounded(reserve as nat, hub_reserve as nat, amount as nat, asset_fee, withdrawal);
        let gross = (c.amount_out + c.asset_fee) as nat;
        let r0 = (reserve - gross) as nat;
        let q0 = (hub_reserve + c.delta_hub_reserve) as nat;
        let k = (c.asset_fee - c.fee_withdrawn) as nat;
        let e = c.extra_hub_reserve as nat;
        let reserve_no_fee = asset_fee.left_from_one_spec(reserve as nat);
        let h = mul_div_floor(
            hub_reserve as nat,
            amount as nat,
            (reserve_no_fee - amount) as nat,
        )->Some_0;
        let d_hub = (h + 1) as nat;
        let g = mul_div_floor(reserve as nat, d_hub, hub_reserve as nat + d_hub)->Some_0;
        lemma_mul_floor_le(asset_fee, reserve as nat);
        lemma_mul_div_le(d_hub, reserve as nat, hub_reserve as nat + d_hub);
        lemma_buy_covers_amount(
            reserve as nat,
            hub_reserve as nat,
            amount as nat,
            reserve_no_fee,
            d_hub,
        );
        lemma_mul_floor_le(withdrawal, (g - amount) as nat);
        assert(c.delta_hub_reserve == d_hub);
        assert(c.asset_fee == g - amount);
        assert(gross == g);
        assert(e == (q0 * k) / r0);
        lemma_floor_bounds(q0 * k, r0);
        let qf = hub_reserve + c.delta_hub_reserve + c.extra_hub_reserve;
        let rf = reserve - c.amount_out - c.fee_withdrawn;
        assert(rf == r0 + k);
        assert(qf == q0 + e);
        assert(qf * r0 <= q0 * rf && q0 * rf < qf * r0 + r0) by (nonlinear_arith)
            requires
                qf == q0 + e,
                rf == r0 + k,
                e * r0 <= q0 * k,
                q0 * k < (e + 1) * r0,
        ;
    }
}

/// Fee invariance within a tolerance. After a sale into a reserve that is
/// left with at least `n` times the price plus two, the price with an asset
/// fee and the price without differ by less than one `n`-th.
pub proof fn lemma_fee_keeps_price_within(
    reserve: Balance,
    hub_reserve: Balance,
    d_hub: Balance,
    asset_fee: Permill,
    withdrawal: Permill,
    n: nat,
)
    requires
        asset_fee.in_range(),
        withdrawal.in_range(),
    ensures
        sell_out_spec(reserve as nat, hub_reserve as nat, d_hub as nat, asset_fee, withdrawal) matches Some(
            c,
        ) ==> ({
            let r0 = reserve - c.amount_out - c.asset_fee;
            let q0 = hub_reserve + d_hub;
            let rf = reserve - c.amount_out - c.fee_withdrawn;
            let qf = hub_reserve + d_hub + c.extra_hub_reserve;
            (q0 + 2 * r0) * n <= r0 * rf ==> (qf * r0 - q0 * rf) * n < r0 * rf && (q0 * rf - qf * r0) * n
                < r0 * rf
        }),
{
    let r = sell_out_spec(reserve as nat, hub_reserve as nat, d_hub as nat, asset_fee, withdrawal);
    if r is Some {
        let c = r->Some_0;
        lemma_fee_keeps_price(reserve, hub_reserve, d_hub, asset_fee, withdrawal);
        let r0 = reserve - c.amount_out - c.asset_fee;
        let q0 = hub_reserve + d_hub;
        let rf = reserve - c.amount_out - c.fee_withdrawn;
        let qf = hub_reserve + d_hub + c.extra_hub_reserve;
        let up = qf * r0 - q0 * rf;
        let down = q0 * rf - qf * r0;
        let width = q0 + 2 * r0;
        if width * n <= r0 * rf {
            if n == 0 {
                assert(up * n == 0 && down * n == 0) by (nonlinear_arith)
                    requires
                        n == 0,
                ;
                assert(r0 * rf > 0) by (nonlinear_arith)
                    requires
                        r0 > 0,
                        rf >= r0,
                ;
            } else {
                assert(up * n < width * n && down * n < width * n) by (nonlinear_arith)
                    requires
                        up < r0,
                        r0 <= width,
                        down < width,
                        n > 0,
                ;
            }
        }
    }
}

/// Selling the amount that a purchase charged buys back at least the hub
/// asset that the purchase took from the asset.
proof fn lemma_charged_amount_buys_hub(r: nat, q: nat, d: nat, a: nat)
    requires
        d < q,
        a == (r * d) / ((q - d) as nat) + 1,
    ensures
        (a * q) / (r + a) >= d,
{
    lemma_floor_bounds(r * d, (q - d) as nat);
    assert(a * q >= d * (r + a)) by (nonlinear_arith)
        requires
            r * d < a * (q - d),
            d < q,
    ;
    lemma_div_ge(a * q, r + a, d);
}

/// The hub asset grossed up for the protocol fee leaves, after the fee, at
/// least the hub asset that was needed.
proof fn lemma_protocol_fee_leaves_enough(need: nat, p: nat, d_in: nat, d: nat)
    requires
        p < 1_000_000,
        d_in == (need * 1_000_000) / ((1_000_000 - p) as nat),
        d >= d_in,
    ensures
        d - (d * p) / 1_000_000 >= need,
{
    let m: int = 1_000_000;
    let c: int = m - p;
    let fl: int = ((d * p) / 1_000_000) as int;
    lemma_floor_bounds(need * 1_000_000, c as nat);
    lemma_floor_bounds(d * p, 1_000_000);
    assert((d - fl) * m >= d * c) by (nonlinear_arith)
        requires
            fl * m <= d * p,
            c == m - p,
    ;
    assert(d * c >= d_in * c) by (nonlinear_arith)
        requires
            d >= d_in,
            c > 0,
    ;
    assert((d_in + 1) * c == d_in * c + c) by (nonlinear_arith);
    assert((d - fl) * m > (need - 1) * m) by (nonlinear_arith)
        requires
            (d - fl) * m >= d_in * c,
            need * m < d_in * c + c,
            c <= m,
    ;
    assert(d - fl > need - 1) by (nonlinear_arith)
        requires
            (d - fl) * m > (need - 1) * m,
            m > 0,
    ;
}

/// More hub asset buys no less along the curve.
proof fn lemma_curve_monotone(r: nat, q: nat, d_small: nat, d_large: nat)
    requires
        d_small <= d_large,
        q + d_small > 0,
    ensures
        (r * d_large) / (q + d_large) >= (r * d_small) / (q + d_small),
{
    let g = (r * d_small) / (q + d_small);
    lemma_floor_bounds(r * d_small, q + d_small);
    assert(g * (q + d_large) * (q + d_small) <= r * d_large * (q + d_small)) by (nonlinear_arith)
        requires
            g * (q + d_small) <= r * d_small,
            d_small <= d_large,
    ;
    assert(g * (q + d_large) <= r * d_large) by (nonlinear_arith)
        requires
            g * (q + d_large) * (q + d_small) <= r * d_large * (q + d_small),
            q + d_small > 0,
    ;
    lemma_div_ge(r * d_large, q + d_large, g);
}

/// What the curve pays for the hub asset of a purchase, less the asset fee,
/// is the amount purchased or one unit less.
proof fn lemma_fee_leaves_amount(r: nat, q: nat, amount: nat, f: nat, rnf: nat, d: nat, g: nat)
    requires
        f <= 1_000_000,
        rnf == (r * ((1_000_000 - f) as nat)) / 1_000_000,
        amount < rnf,
        d == (q * amount) / ((rnf - amount) as nat) + 1,
        g >= (r * d) / (q + d),
    ensures
        (g * ((1_000_000 - f) as nat)) / 1_000_000 + 1 >= amount,
{
    let m: int = 1_000_000;
    let cf: int = m - f;
    let g0: int = ((r * d) / (q + d)) as int;
    lemma_floor_bounds(q * amount, (rnf - amount) as nat);
    lemma_floor_bounds(r * cf as nat, 1_000_000);
    lemma_floor_bounds(r * d, q + d);
    if amount > 0 {
        assert(amount * (q + d) < d * rnf) by (nonlinear_arith)
            requires
                q * amount < d * (rnf - amount),
        ;
        assert(d * rnf * m <= d * r * cf) by (nonlinear_arith)
            requires
                rnf * m <= r * cf,
                d >= 0,
        ;
        assert((g0 + 1) * (q + d) * cf >= r * d * cf) by (nonlinear_arith)
            requires
                r * d < (g0 + 1) * (q + d),
                cf >= 0,
        ;
        assert(g0 * cf * (q + d) > (amount - 1) * m * (q + d)) by (nonlinear_arith)
            requires
                (g0 + 1) * (q + d) * cf >= r * d * cf,
                d * rnf * m <= d * r * cf,
                amount * (q + d) < d * rnf,
                cf <= m,
                q + d > 0,
                m > 0,
        ;
        assert(g0 * cf > (amount - 1) * m) by (nonlinear_arith)
            requires
                g0 * cf * (q + d) > (amount - 1) * m * (q + d),
                q + d > 0,
        ;
        assert(g * cf >= g0 * cf) by (nonlinear_arith)
            requires
                g >= g0,
                cf >= 0,
        ;
        lemma_div_ge((g * cf) as nat, 1_000_000, (amount - 1) as nat);
    }
}

/// Near-inverse of sale and purchase. Selling exactly what a purchase of
/// `amount` charged pays out `amount` or one unit less: a purchase never
/// charges less than the sale that would bring its amount, up to one unit
/// of rounding.
pub proof fn lemma_sale_of_purchase_price_covers_amount(
    asset_in: AssetReserveState,
    asset_out: AssetReserveState,
    amount: Balance,
    asset_fee: Permill,
    protocol_fee: Permill,
    burn_fee: Permill,
    withdrawal: Permill,
)
    requires
        asset_fee.in_range(),
        protocol_fee.in_range(),
        burn_fee.in_range(),
        withdrawal.in_range(),
    ensures
        buy_spec(asset_in, asset_out, amount as nat, asset_fee, protocol_fee, burn_fee, withdrawal) matches Some(
            bought,
        ) ==> sell_spec(
            asset_in,
            asset_out,
            bought.asset_in.amount_in as nat,
            asset_fee,
            protocol_fee,
            burn_fee,
            withdrawal,
        ) matches Some(sold) ==> sold.asset_out.amount_out + 1 >= amount,
{
    let ri = asset_in.reserve as nat;
    let qi = asset_in.hub_reserve as nat;
    let ro = asset_out.reserve as nat;
    let qo = asset_out.hub_reserve as nat;
    let b = buy_spec(asset_in, asset_out, amount as nat, asset_fee, protocol_fee, burn_fee, withdrawal);
    if b is Some {
        let bought = b->Some_0;
        let a = bought.asset_in.amount_in as nat;
        let s = sell_spec(asset_in, asset_out, a, asset_fee, protocol_fee, burn_fee, withdrawal);
        if s is Some {
            let sold = s->Some_0;
            lemma_buy_out_bounded(ro, qo, amount as nat, asset_fee, withdrawal);
            let need = bought.asset_out.delta_hub_reserve as nat;
            lemma_buy_in_bounded(ri, qi, need, protocol_fee, burn_fee);
            lemma_sell_in_bounded(ri, qi, a, protocol_fee, burn_fee);
            let routed = sold.asset_in.hub_routed as nat;
            lemma_sell_out_bounded(ro, qo, routed, asset_fee, withdrawal);
            let d_in = bought.asset_in.delta_hub_reserve as nat;
            let d_sold = sold.asset_in.delta_hub_reserve as nat;
            lemma_charged_amount_buys_hub(ri, qi, d_in, a);
            lemma_protocol_fee_leaves_enough(need, protocol_fee.parts(), d_in, d_sold);
            assert(routed >= need);
            lemma_curve_monotone(ro, qo, need, routed);
            let gross = (sold.asset_out.amount_out + sold.asset_out.asset_fee) as nat;
            lemma_fee_leaves_amount(
                ro,
                qo,
                amount as nat,
                asset_fee.parts(),
                asset_fee.left_from_one_spec(ro),
                need,
                gross,
            );
        }
    }
}

/// What a trade between two assets changes, for a trader who is neither the
/// pool nor the fee collector. The trader pays the amount entering and
/// receives the amount leaving; the pool's account receives and pays the
/// same, and pays the withdrawn part of the asset fee to the fee collector;
/// the protocol fee collector receives the protocol fee less what is burnt;
/// the two records change as the kernel says, the hub liquidity changes as
/// their hub reserves do, and no other record changes.
pub proof fn lemma_trade_effects(
    s: PoolState,
    who: AccountId,
    asset_in: AssetId,
    asset_out: AssetId,
    c: TradeStateChange,
)
    requires
        s.wf(),
        asset_in != asset_out,
        asset_in != s.config.hub_asset,
        asset_out != s.config.hub_asset,
        who != s.config.pool_account,
        who != s.config.fee_collector,
        trade_change_bounded(s.assets[asset_in], s.assets[asset_out], c),
    ensures
        trade_committed(s, who, asset_in, asset_out, c) matches Ok(t) ==> {
            let pool = s.config.pool_account;
            &&& t.balances[(who, asset_in)] == s.balances[(who, asset_in)] - c.asset_in.amount_in
            &&& t.balances[(who, asset_out)] == s.balances[(who, asset_out)] + c.asset_out.amount_out
            &&& t.balances[(pool, asset_in)] == s.balances[(pool, asset_in)] + c.asset_in.amount_in
            &&& t.balances[(pool, asset_out)] == s.balances[(pool, asset_out)] - c.asset_out.amount_out
                - c.asset_out.fee_withdrawn
            &&& t.balances[(s.config.fee_collector, asset_out)] == s.balances[(
                s.config.fee_collector,
                asset_out,
            )] + c.asset_out.fee_withdrawn
            &&& t.balances[(s.config.protocol_fee_collector, s.config.hub_asset)] == s.balances[(
                s.config.protocol_fee_collector,
                s.config.hub_asset,
            )] + c.asset_in.protocol_fee - c.asset_in.burned_protocol_fee
            &&& t.hub_balance() == s.hub_balance() - c.asset_in.protocol_fee
                + c.asset_out.extra_hub_reserve
            &&& t.hub_liquidity - s.hub_liquidity == (t.assets[asset_in].hub_reserve
                - s.assets[asset_in].hub_reserve) + (t.assets[asset_out].hub_reserve
                - s.assets[asset_out].hub_reserve)
            &&& after_in(s.assets[asset_in], c.asset_in) == Some(t.assets[asset_in])
            &&& after_out(s.assets[asset_out], c.asset_out) == Some(t.assets[asset_out])
            &&& t.assets.dom() == s.assets.dom().insert(asset_in).insert(asset_out)
            &&& forall|other: AssetId|
                other != asset_in && other != asset_out ==> t.assets[other] == s.assets[other]
            &&& t.positions == s.positions
        },
{
    if trade_committed(s, who, asset_in, asset_out, c) is Ok {
        let t = trade_committed(s, who, asset_in, asset_out, c)->Ok_0;
        assert(t.assets.dom() =~= s.assets.dom().insert(asset_in).insert(asset_out));
    }
}

/// What a trade of hub asset for an asset changes, for a trader who is
/// neither the pool nor the fee collector. The trader pays hub asset to the
/// pool and receives the amount leaving; the fee collector receives the
/// withdrawn part of the asset fee; the record of the asset changes as the
/// kernel says, and no other record changes.
pub proof fn lemma_hub_trade_effects(s: PoolState, who: AccountId, asset_out: AssetId, c: AssetOutChange)
    requires
        s.wf(),
        asset_out != s.config.hub_asset,
        who != s.config.pool_account,
        who != s.config.fee_collector,
    ensures
        hub_trade_committed(s, who, asset_out, c) matches Ok(t) ==> {
            let pool = s.config.pool_account;
            let hub = s.config.hub_asset;
            &&& t.balances[(who, hub)] == s.balances[(who, hub)] - c.delta_hub_reserve
            &&& t.balances[(who, asset_out)] == s.balances[(who, asset_out)] + c.amount_out
            &&& t.balances[(pool, asset_out)] == s.balances[(pool, asset_out)] - c.amount_out
                - c.fee_withdrawn
            &&& t.balances[(s.config.fee_collector, asset_out)] == s.balances[(
                s.config.fee_collector,
                asset_out,
            )] + c.fee_withdrawn
            &&& t.hub_balance() == s.hub_balance() + c.delta_hub_reserve + c.extra_hub_reserve
            &&& t.hub_liquidity - s.hub_liquidity == t.assets[asset_out].hub_reserve
                - s.assets[asset_out].hub_reserve
            &&& after_out(s.assets[asset_out], c) == Some(t.assets[asset_out])
            &&& forall|other: AssetId| other != asset_out ==> t.assets[other] == s.assets[other]
            &&& t.positions == s.positions
        },
{
}

} // verus!
