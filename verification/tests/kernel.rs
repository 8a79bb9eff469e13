use omnipool_core::arith::{widening_mul, Balance, FixedU128, Permill};
use omnipool_core::math::{
    amount_without_fee, apply_added, apply_in, apply_out, apply_removed, calculate_add_liquidity_state_changes,
    calculate_buy_for_hub_asset_state_changes, calculate_buy_in, calculate_buy_out, calculate_buy_state_changes,
    calculate_remove_liquidity_state_changes, calculate_sell_hub_state_changes, calculate_sell_in,
    calculate_sell_out, calculate_sell_state_changes, AssetInChange, AssetOutChange, LiquidityAdded,
    LiquidityRemoved, TradeStateChange,
};
use omnipool_core::state::AssetReserveState;
use omnipool_core::tradability::Tradability;
use primitive_types::U256;

const ONE: Balance = 1_000_000_000_000;

fn state(reserve: Balance, hub_reserve: Balance, shares: Balance) -> AssetReserveState {
    AssetReserveState {
        reserve,
        hub_reserve,
        shares,
        protocol_shares: 0,
        cap: Permill::one(),
        tradable: Tradability::default(),
    }
}

fn percent(x: u32) -> Permill {
    Permill::from_percent(x)
}

#[test]
fn products_with_ratios_work_beyond_128_bits_in_between() {
    let one = 1_000_000_000_000_000_000u128;
    assert_eq!(FixedU128::from_inner(u128::MAX).checked_mul_int(one), Some(u128::MAX));
    assert_eq!(FixedU128::from_inner(u128::MAX).checked_mul_int(one / 2), Some(u128::MAX / 2));
    assert_eq!(FixedU128::from_inner(u128::MAX).checked_mul_int(one + 1), None);
    assert_eq!(FixedU128::from_inner(7).checked_mul_int(one / 7), Some(0));
    assert_eq!(FixedU128::from_inner(7).checked_mul_int(one / 7 + 1), Some(1));
    assert_eq!(
        FixedU128::checked_from_rational(u128::MAX, one).map(|p| p.into_inner()),
        Some(u128::MAX)
    );
    assert_eq!(FixedU128::checked_from_rational(u128::MAX, one - 1), None);
    assert_eq!(FixedU128::checked_from_rational(0, 0), None);
    assert_eq!(FixedU128::checked_from_rational(0, 5).map(|p| p.into_inner()), Some(0));
}

#[test]
fn widening_mul_never_overflows() {
    assert_eq!(widening_mul(u32::MAX, u32::MAX), 18_446_744_065_119_617_025);
    assert_eq!(widening_mul(0, u32::MAX), 0);
    assert_eq!(widening_mul(3, 5), 15);
}

#[test]
fn permill_constructors_saturate() {
    assert_eq!(Permill::from_parts(250_000).deconstruct(), 250_000);
    assert_eq!(Permill::from_parts(1_000_001).deconstruct(), 1_000_000);
    assert_eq!(Permill::from_parts(u32::MAX), Permill::one());
    assert_eq!(Permill::from_percent(3).deconstruct(), 30_000);
    assert_eq!(Permill::from_percent(100), Permill::one());
    assert_eq!(Permill::from_percent(101), Permill::one());
    assert_eq!(Permill::from_percent(0), Permill::zero());
    assert!(Permill::zero().is_zero());
    assert!(!Permill::from_parts(1).is_zero());
    assert_eq!(Permill::from_percent(30).left_from_one(), Permill::from_percent(70));
    assert_eq!(Permill::one().left_from_one(), Permill::zero());
}

#[test]
fn permill_mul_floor_rounds_down_and_never_overflows() {
    assert_eq!(Permill::from_percent(10).mul_floor(47_619_047_619_047), 4_761_904_761_904);
    assert_eq!(Permill::from_percent(90).mul_floor(47_619_047_619_047), 42_857_142_857_142);
    assert_eq!(Permill::from_parts(1).mul_floor(999_999), 0);
    assert_eq!(Permill::from_parts(1).mul_floor(1_000_000), 1);
    assert_eq!(Permill::from_parts(333_333).mul_floor(10), 3);
    assert_eq!(Permill::one().mul_floor(u128::MAX), u128::MAX);
    assert_eq!(Permill::from_percent(50).mul_floor(u128::MAX), u128::MAX / 2);
    assert_eq!(Permill::zero().mul_floor(u128::MAX), 0);
    assert_eq!(
        Permill::from_parts(123_456).mul_floor(u128::MAX),
        sp_arithmetic::Permill::from_parts(123_456).mul_floor(u128::MAX)
    );
}

#[test]
fn amount_without_fee_keeps_the_rest() {
    assert_eq!(amount_without_fee(46_223_492_971_170, percent(10)), 41_601_143_674_053);
    assert_eq!(amount_without_fee(1_000, percent(0)), 1_000);
    assert_eq!(amount_without_fee(1_000, percent(100)), 0);
    assert_eq!(amount_without_fee(9, percent(50)), 4);
}

#[test]
fn fixed_point_numbers() {
    assert_eq!(FixedU128::one().into_inner(), 1_000_000_000_000_000_000);
    assert_eq!(FixedU128::from_u32(3).into_inner(), 3_000_000_000_000_000_000);
    assert_eq!(FixedU128::from_inner(7).into_inner(), 7);
    assert_eq!(FixedU128::checked_from_rational(1, 3), Some(FixedU128::from_inner(333_333_333_333_333_333)));
    assert_eq!(FixedU128::checked_from_rational(2, 3), Some(FixedU128::from_inner(666_666_666_666_666_666)));
    assert_eq!(FixedU128::checked_from_rational(1, 0), None);
    assert_eq!(FixedU128::checked_from_rational(u128::MAX, 1), None);
    assert_eq!(FixedU128::from_inner(650_000_000_000_000_000).checked_mul_int(2_000 * ONE), Some(1_300 * ONE));
    assert_eq!(FixedU128::from_inner(333_333_333_333_333_333).checked_mul_int(10), Some(3));
    assert_eq!(FixedU128::from_u32(2).checked_mul_int(u128::MAX), None);
    assert_eq!(
        sp_arithmetic::FixedU128::from_float(0.65).into_inner(),
        FixedU128::checked_from_rational(65, 100).unwrap().into_inner()
    );
}

#[test]
fn sell_in_takes_the_protocol_fee_from_the_hub_asset() {
    assert_eq!(
        calculate_sell_in(2_000 * ONE, 2_000 * ONE, 50 * ONE, percent(3), percent(50)),
        Some(AssetInChange {
            amount_in: 50 * ONE,
            delta_hub_reserve: 48_780_487_804_878,
            protocol_fee: 1_463_414_634_146,
            burned_protocol_fee: 731_707_317_073,
            hub_routed: 47_317_073_170_732,
        })
    );
    assert_eq!(calculate_sell_in(0, 0, 0, percent(3), percent(50)), None);
    assert_eq!(calculate_sell_in(u128::MAX, 1, 1, percent(3), percent(50)), None);
    assert_eq!(
        calculate_sell_in(0, 7, 5, percent(100), percent(100)),
        Some(AssetInChange {
            amount_in: 5,
            delta_hub_reserve: 7,
            protocol_fee: 7,
            burned_protocol_fee: 7,
            hub_routed: 0,
        })
    );
}

#[test]
fn sell_out_withholds_the_fee_and_mints_for_what_stays() {
    assert_eq!(
        calculate_sell_out(2_000 * ONE, 2_000 * ONE, 47_317_073_170_732, percent(10), percent(10)),
        Some(AssetOutChange {
            delta_hub_reserve: 47_317_073_170_732,
            amount_out: 41_601_143_674_053,
            asset_fee: 4_622_349_297_117,
            fee_withdrawn: 462_234_929_711,
            extra_hub_reserve: 4_359_287_328_972,
        })
    );
    assert_eq!(
        calculate_sell_out(2_000 * ONE, 1_300 * ONE, 39_800_995_024_876, percent(10), percent(0)),
        Some(AssetOutChange {
            delta_hub_reserve: 39_800_995_024_876,
            amount_out: 53_471_964_352_023,
            asset_fee: 5_941_329_372_448,
            fee_withdrawn: 0,
            extra_hub_reserve: 4_101_954_825_946,
        })
    );
    assert_eq!(
        calculate_sell_out(2_000 * ONE, 1_300 * ONE, 50 * ONE, percent(0), percent(30)),
        Some(AssetOutChange {
            delta_hub_reserve: 50 * ONE,
            amount_out: 74_074_074_074_074,
            asset_fee: 0,
            fee_withdrawn: 0,
            extra_hub_reserve: 0,
        })
    );
}

#[test]
fn sell_out_fails_on_an_empty_side() {
    assert_eq!(calculate_sell_out(1_000, 0, 0, percent(0), percent(0)), None);
    // All of the reserve would leave.
    assert_eq!(calculate_sell_out(1_000, 0, 5, percent(0), percent(0)), None);
    assert_eq!(calculate_sell_out(0, 1_000, 5, percent(0), percent(0)), None);
    assert_eq!(calculate_sell_out(1_000, u128::MAX, 1, percent(0), percent(0)), None);
}

#[test]
fn sell_state_changes_join_both_sides() {
    let change = calculate_sell_state_changes(
        &state(2_000 * ONE, 2_000 * ONE, 2_000 * ONE),
        &state(2_000 * ONE, 2_000 * ONE, 2_000 * ONE),
        50 * ONE,
        percent(10),
        percent(3),
        percent(50),
        percent(10),
    )
    .unwrap();
    assert_eq!(
        change.asset_in,
        calculate_sell_in(2_000 * ONE, 2_000 * ONE, 50 * ONE, percent(3), percent(50)).unwrap()
    );
    assert_eq!(
        change.asset_out,
        calculate_sell_out(2_000 * ONE, 2_000 * ONE, 47_317_073_170_732, percent(10), percent(10)).unwrap()
    );
    assert_eq!(
        calculate_sell_hub_state_changes(&state(2_000 * ONE, 1_300 * ONE, 1), 50 * ONE, percent(0), percent(0)),
        calculate_sell_out(2_000 * ONE, 1_300 * ONE, 50 * ONE, percent(0), percent(0))
    );
}

#[test]
fn buy_out_charges_for_the_reserve_without_its_fee() {
    assert_eq!(
        calculate_buy_out(2_000 * ONE, 2_000 * ONE, 49_513_753_820_506, percent(10), percent(1)),
        Some(AssetOutChange {
            delta_hub_reserve: 56_571_428_571_429,
            amount_out: 49_513_753_820_506,
            asset_fee: 5_501_528_202_278,
            fee_withdrawn: 55_015_282_022,
            extra_hub_reserve: 5_758_987_591_837,
        })
    );
    assert_eq!(
        calculate_buy_out(2_000 * ONE, 1_300 * ONE, 50 * ONE, percent(0), percent(0)),
        Some(AssetOutChange {
            delta_hub_reserve: 33_333_333_333_334,
            amount_out: 50 * ONE,
            asset_fee: 0,
            fee_withdrawn: 0,
            extra_hub_reserve: 0,
        })
    );
    assert_eq!(
        calculate_buy_for_hub_asset_state_changes(&state(2_000 * ONE, 1_300 * ONE, 1), 50 * ONE, percent(0), percent(0)),
        calculate_buy_out(2_000 * ONE, 1_300 * ONE, 50 * ONE, percent(0), percent(0))
    );
}

#[test]
fn buy_out_fails_when_the_amount_is_not_below_the_reserve_without_fee() {
    assert_eq!(calculate_buy_out(1_000, 1_000, 900, percent(10), percent(0)), None);
    assert_eq!(calculate_buy_out(1_000, 1_000, 901, percent(10), percent(0)), None);
    assert_eq!(calculate_buy_out(1_000, 1_000, 899, percent(10), percent(0)).unwrap().asset_fee, 99);
    assert_eq!(calculate_buy_out(1_000, 1_000, 1, percent(100), percent(0)), None);
    assert_eq!(calculate_buy_out(0, 1_000, 0, percent(0), percent(0)), None);
    assert_eq!(calculate_buy_out(1_000, u128::MAX, 1, percent(0), percent(0)), None);
}

#[test]
fn buy_in_grosses_up_for_the_protocol_fee() {
    assert_eq!(
        calculate_buy_in(2_000 * ONE, 2_000 * ONE, 56_571_428_571_429, percent(1), percent(50)),
        Some(AssetInChange {
            amount_in: 58_823_529_411_765,
            delta_hub_reserve: 57_142_857_142_857,
            protocol_fee: 571_428_571_428,
            burned_protocol_fee: 285_714_285_714,
            hub_routed: 56_571_428_571_429,
        })
    );
    assert_eq!(calculate_buy_in(1_000, 1_000, 10, percent(100), percent(0)), None);
    assert_eq!(calculate_buy_in(1_000, 1_000, 1_000, percent(0), percent(0)), None);
    assert_eq!(calculate_buy_in(1_000, 1_000, 999, percent(0), percent(0)).unwrap().amount_in, 999_001);
    assert_eq!(calculate_buy_in(u128::MAX, 2, 1, percent(0), percent(0)), None);
}

#[test]
fn buy_state_changes_join_both_sides() {
    let pool = state(2_000 * ONE, 2_000 * ONE, 2_000 * ONE);
    assert_eq!(
        calculate_buy_state_changes(&pool, &pool, 49_513_753_820_506, percent(10), percent(1), percent(50), percent(1)),
        Some(TradeStateChange {
            asset_in: calculate_buy_in(2_000 * ONE, 2_000 * ONE, 56_571_428_571_429, percent(1), percent(50)).unwrap(),
            asset_out: calculate_buy_out(2_000 * ONE, 2_000 * ONE, 49_513_753_820_506, percent(10), percent(1))
                .unwrap(),
        })
    );
}

#[test]
fn selling_what_a_purchase_charged_pays_the_amount_bought_or_one_unit_less() {
    let pool = state(2_000 * ONE, 2_000 * ONE, 2_000 * ONE);
    for amount in [1, 7, 1_000, 49_513_753_820_506, 333 * ONE] {
        let bought =
            calculate_buy_state_changes(&pool, &pool, amount, percent(10), percent(1), percent(50), percent(1))
                .unwrap();
        let sold = calculate_sell_state_changes(
            &pool,
            &pool,
            bought.asset_in.amount_in,
            percent(10),
            percent(1),
            percent(50),
            percent(1),
        )
        .unwrap();
        assert!(sold.asset_out.amount_out + 1 >= amount);
    }
}

#[test]
fn liquidity_changes_are_proportional() {
    let s = state(2_450 * ONE, 1_528_163_265_306_123, 2_400 * ONE);
    assert_eq!(
        calculate_add_liquidity_state_changes(&s, 7 * ONE),
        Some(LiquidityAdded {
            delta_reserve: 7 * ONE,
            delta_hub_reserve: 4_366_180_758_017,
            delta_shares: 6_857_142_857_142,
        })
    );
    assert_eq!(
        calculate_remove_liquidity_state_changes(&s, 400 * ONE),
        Some(LiquidityRemoved {
            delta_shares: 400 * ONE,
            delta_reserve: 408_333_333_333_333,
            delta_hub_reserve: 254_693_877_551_020,
        })
    );
    assert_eq!(calculate_add_liquidity_state_changes(&state(0, 0, 0), 1), None);
    assert_eq!(calculate_remove_liquidity_state_changes(&s, 2_400 * ONE + 1), None);
    assert_eq!(calculate_remove_liquidity_state_changes(&state(0, 0, 0), 0), None);
    assert_eq!(
        calculate_remove_liquidity_state_changes(&s, 2_400 * ONE),
        Some(LiquidityRemoved {
            delta_shares: 2_400 * ONE,
            delta_reserve: 2_450 * ONE,
            delta_hub_reserve: 1_528_163_265_306_123,
        })
    );
}

#[test]
fn changes_are_applied_or_refused_whole() {
    let s = state(1_000, 500, 1_000);
    let entering = AssetInChange {
        amount_in: 10,
        delta_hub_reserve: 4,
        protocol_fee: 1,
        burned_protocol_fee: 0,
        hub_routed: 3,
    };
    assert_eq!(apply_in(&s, &entering), Some(state(1_010, 496, 1_000)));
    assert_eq!(apply_in(&s, &AssetInChange { delta_hub_reserve: 501, ..entering }), None);
    assert_eq!(apply_in(&s, &AssetInChange { amount_in: u128::MAX, ..entering }), None);
    let leaving = AssetOutChange {
        delta_hub_reserve: 3,
        amount_out: 9,
        asset_fee: 2,
        fee_withdrawn: 1,
        extra_hub_reserve: 1,
    };
    assert_eq!(apply_out(&s, &leaving), Some(state(990, 504, 1_000)));
    assert_eq!(apply_out(&s, &AssetOutChange { amount_out: 1_000, ..leaving }), None);
    assert_eq!(apply_out(&s, &AssetOutChange { extra_hub_reserve: u128::MAX, ..leaving }), None);
    let added = LiquidityAdded { delta_reserve: 10, delta_hub_reserve: 5, delta_shares: 10 };
    assert_eq!(apply_added(&s, &added), Some(state(1_010, 505, 1_010)));
    assert_eq!(apply_added(&s, &LiquidityAdded { delta_shares: u128::MAX, ..added }), None);
    let removed = LiquidityRemoved { delta_shares: 10, delta_reserve: 10, delta_hub_reserve: 5 };
    assert_eq!(apply_removed(&s, &removed), Some(state(990, 495, 990)));
    assert_eq!(apply_removed(&s, &LiquidityRemoved { delta_reserve: 1_001, ..removed }), None);
    let owned = AssetReserveState { protocol_shares: 995, ..s };
    assert_eq!(apply_removed(&owned, &removed), None);
}

// A small generator of numbers of every size up to 128 bits.
fn next(seed: &mut u64) -> u128 {
    let mut word = || {
        *seed = seed.wrapping_mul(6364136223846793005).wrapping_add(1442695040888963407);
        (*seed >> 11) as u128
    };
    let raw = (word() << 75) ^ (word() << 40) ^ word();
    raw >> (word() % 128)
}

#[test]
fn products_with_ratios_agree_with_256_bit_arithmetic() {
    let accuracy = U256::from(1_000_000_000_000_000_000u128);
    let fits = |x: U256| if x > U256::from(u128::MAX) { None } else { Some(x.low_u128()) };
    let mut seed = 7;
    for _ in 0..20_000 {
        let (a, b, c) = (next(&mut seed), next(&mut seed), next(&mut seed));
        let expected = fits(U256::from(a) * U256::from(b) / accuracy);
        assert_eq!(FixedU128::from_inner(a).checked_mul_int(b), expected);
        if c != 0 {
            let expected = fits(U256::from(a) * accuracy / U256::from(c));
            assert_eq!(FixedU128::checked_from_rational(a, c).map(|p| p.into_inner()), expected);
        }
        // `amount * hub_reserve / (reserve + amount)`, for any three numbers.
        if let Some(total) = a.checked_add(c) {
            if total != 0 {
                let expected = (U256::from(a) * U256::from(b) / U256::from(total)).low_u128();
                let change = calculate_sell_in(c, b, a, percent(0), percent(0)).unwrap();
                assert_eq!(change.delta_hub_reserve, expected);
            }
        }
    }
}
