use omnipool_core::arith::{Balance, FixedU128, Permill};
use omnipool_core::error::Error;
use omnipool_core::model::Config;
use omnipool_core::pool::Omnipool;
use omnipool_core::state::{AccountId, AssetId, AssetReserveState};
use omnipool_core::tradability::Tradability;

const HDX: AssetId = 0;
const LRNA: AssetId = 1;
const DAI: AssetId = 2;

const LP1: AccountId = 1;
const LP2: AccountId = 2;
const LP3: AccountId = 3;
const POOL: AccountId = 1_000;
const TRADE_FEE_COLLECTOR: AccountId = 2_000;
const PROTOCOL_FEE_COLLECTOR: AccountId = 3_000;

const ONE: Balance = 1_000_000_000_000;
const NATIVE_AMOUNT: Balance = 10_000 * ONE;

const ACCOUNTS: [AccountId; 6] = [LP1, LP2, LP3, POOL, TRADE_FEE_COLLECTOR, PROTOCOL_FEE_COLLECTOR];
const ASSETS: [AssetId; 7] = [HDX, LRNA, DAI, 100, 200, 1000, 2000];

fn default_weight_cap() -> Permill {
    Permill::from_percent(100)
}

fn price(x: f64) -> FixedU128 {
    FixedU128::from_inner(sp_arithmetic::FixedU128::from_float(x).into_inner())
}

fn price_of(x: u32) -> FixedU128 {
    FixedU128::from_u32(x)
}

struct ExtBuilder {
    endowed_accounts: Vec<(AccountId, AssetId, Balance)>,
    registered_assets: Vec<AssetId>,
    asset_fee: Permill,
    protocol_fee: Permill,
    burn_fee: Permill,
    on_trade_withdrawal: Permill,
    min_trade_amount: Balance,
    max_in_ratio: Balance,
    max_out_ratio: Balance,
    init_pool: Option<(FixedU128, FixedU128)>,
    pool_tokens: Vec<(AssetId, FixedU128, AccountId, Balance)>,
}

impl ExtBuilder {
    fn default() -> Self {
        ExtBuilder {
            endowed_accounts: vec![(POOL, DAI, 1000 * ONE), (POOL, HDX, NATIVE_AMOUNT)],
            registered_assets: vec![],
            asset_fee: Permill::from_percent(0),
            protocol_fee: Permill::from_percent(0),
            burn_fee: Permill::from_percent(0),
            on_trade_withdrawal: Permill::from_percent(0),
            min_trade_amount: 0,
            max_in_ratio: 1,
            max_out_ratio: 1,
            init_pool: None,
            pool_tokens: vec![],
        }
    }

    fn with_endowed_accounts(mut self, accounts: Vec<(AccountId, AssetId, Balance)>) -> Self {
        self.endowed_accounts = accounts;
        self
    }

    fn with_registered_asset(mut self, asset: AssetId) -> Self {
        self.registered_assets.push(asset);
        self
    }

    fn with_asset_fee(mut self, fee: Permill) -> Self {
        self.asset_fee = fee;
        self
    }

    fn with_protocol_fee(mut self, fee: Permill) -> Self {
        self.protocol_fee = fee;
        self
    }

    fn with_burn_fee(mut self, fee: Permill) -> Self {
        self.burn_fee = fee;
        self
    }

    fn with_on_trade_withdrawal(mut self, fraction: Permill) -> Self {
        self.on_trade_withdrawal = fraction;
        self
    }

    fn with_min_trade_amount(mut self, amount: Balance) -> Self {
        self.min_trade_amount = amount;
        self
    }

    fn with_max_in_ratio(mut self, ratio: Balance) -> Self {
        self.max_in_ratio = ratio;
        self
    }

    fn with_max_out_ratio(mut self, ratio: Balance) -> Self {
        self.max_out_ratio = ratio;
        self
    }

    fn with_initial_pool(mut self, stable_price: FixedU128, native_price: FixedU128) -> Self {
        self.init_pool = Some((stable_price, native_price));
        self
    }

    fn with_token(mut self, asset: AssetId, price: FixedU128, owner: AccountId, amount: Balance) -> Self {
        self.pool_tokens.push((asset, price, owner, amount));
        self
    }

    fn build(self) -> Omnipool {
        let config = Config {
            hub_asset: LRNA,
            pool_account: POOL,
            fee_collector: TRADE_FEE_COLLECTOR,
            protocol_fee_collector: PROTOCOL_FEE_COLLECTOR,
            asset_fee: self.asset_fee,
            protocol_fee: self.protocol_fee,
            burn_fee: self.burn_fee,
            on_trade_withdrawal: self.on_trade_withdrawal,
            min_trading_amount: self.min_trade_amount,
            min_pool_liquidity: 0,
            max_in_ratio: self.max_in_ratio,
            max_out_ratio: self.max_out_ratio,
            price_tolerance: Permill::from_percent(100),
        };
        let mut pool = Omnipool::new(config).unwrap();
        for (who, asset, amount) in self.endowed_accounts.iter() {
            assert_eq!(pool.deposit(*asset, *who, *amount), Ok(()));
        }
        if let Some((stable_price, native_price)) = self.init_pool {
            assert!(pool.add_token(HDX, native_price, default_weight_cap(), POOL, true).is_ok());
            assert!(pool.add_token(DAI, stable_price, default_weight_cap(), POOL, true).is_ok());
            for (asset, price, owner, amount) in self.pool_tokens.iter() {
                move_to_pool(&mut pool, *asset, *owner, *amount);
                let registered = self.registered_assets.contains(asset);
                assert!(pool.add_token(*asset, *price, default_weight_cap(), *owner, registered).is_ok());
            }
        }
        pool
    }
}

// The owner of a new token hands its first liquidity to the pool's account.
fn move_to_pool(pool: &mut Omnipool, asset: AssetId, owner: AccountId, amount: Balance) {
    assert_eq!(pool.transfer(asset, owner, POOL, amount), Ok(()));
}

fn digest(pool: &Omnipool) -> (Vec<Balance>, Vec<Option<AssetReserveState>>) {
    let mut balances = Vec::new();
    for who in ACCOUNTS.iter() {
        for a in ASSETS.iter() {
            balances.push(pool.free_balance(*a, *who));
        }
    }
    let mut states = Vec::new();
    for a in ASSETS.iter() {
        states.push(pool.asset(*a));
    }
    (balances, states)
}

fn assert_noop<T: std::fmt::Debug + PartialEq>(
    pool: &mut Omnipool,
    call: impl FnOnce(&mut Omnipool) -> Result<T, Error>,
    expected: Error,
) {
    let before = digest(pool);
    assert_eq!(call(pool), Err(expected));
    assert_eq!(digest(pool), before);
}

fn assert_balance_approx(pool: &Omnipool, who: AccountId, asset: AssetId, expected: Balance, tolerance: Balance) {
    let balance = pool.free_balance(asset, who);
    let diff = if balance >= expected { balance - expected } else { expected - balance };
    assert!(diff <= tolerance, "balance {} of asset {} is not {}", balance, asset, expected);
}

fn assert_asset_state(pool: &Omnipool, asset: AssetId, expected: AssetReserveState) {
    assert_eq!(pool.load_asset_state(asset), Ok(expected));
}

// The hub reserves add up to the hub asset that the pool holds, and the pool
// is worth that much counted in the stable asset.
fn assert_pool_state(pool: &Omnipool, hub_liquidity: Balance, value_in_stable: Balance) {
    assert_eq!(pool.free_balance(LRNA, POOL), hub_liquidity);
    assert_eq!(pool.hub_liquidity(), hub_liquidity);
    let sum: Balance = pool.assets().iter().map(|v| v.1.hub_reserve).sum();
    assert_eq!(sum, hub_liquidity);
    let stable = pool.load_asset_state(DAI).unwrap();
    assert_eq!(hub_liquidity * stable.reserve / stable.hub_reserve, value_in_stable);
}

fn spot_price(state: &AssetReserveState) -> sp_arithmetic::FixedU128 {
    sp_arithmetic::FixedU128::from_rational(state.reserve, state.hub_reserve)
}

fn assert_eq_approx(a: sp_arithmetic::FixedU128, b: sp_arithmetic::FixedU128, tolerance: sp_arithmetic::FixedU128, what: &str) {
    let diff = if a >= b { a - b } else { b - a };
    assert!(diff <= tolerance, "{}: {:?} and {:?} differ by more than {:?}", what, a, b, tolerance);
}

#[test]
fn simple_sell_works() {
    let mut pool = ExtBuilder::default()
        .with_endowed_accounts(vec![
            (POOL, DAI, 1000 * ONE),
            (POOL, HDX, NATIVE_AMOUNT),
            (LP2, 100, 2000 * ONE),
            (LP3, 200, 2000 * ONE),
            (LP1, 100, 1000 * ONE),
        ])
        .with_registered_asset(100)
        .with_registered_asset(200)
        .with_initial_pool(price(0.5), price_of(1))
        .with_token(100, price(0.65), LP2, 2000 * ONE)
        .with_token(200, price(0.65), LP3, 2000 * ONE)
        .build();

    let liq_added = 400 * ONE;
    assert!(pool.add_liquidity(LP1, 100, liq_added).is_ok());

    let sell_amount = 50 * ONE;
    let min_limit = 10 * ONE;

    assert!(pool.sell(LP1, 100, 200, sell_amount, min_limit).is_ok());

    assert_eq!(pool.free_balance(100, LP1), 550000000000000);
    assert_eq!(pool.free_balance(200, LP1), 47808764940238);
    assert_eq!(pool.free_balance(LRNA, POOL), 13360 * ONE);
    assert_eq!(pool.free_balance(100, POOL), 2450 * ONE);
    assert_eq!(pool.free_balance(200, POOL), 1952191235059762);

    assert_pool_state(&pool, 13_360 * ONE, 26_720 * ONE);

    assert_asset_state(
        &pool,
        100,
        AssetReserveState {
            reserve: 2450 * ONE,
            hub_reserve: 1_528_163_265_306_123,
            shares: 2400 * ONE,
            protocol_shares: 0,
            cap: default_weight_cap(),
            tradable: Tradability::default(),
        },
    );
    assert_asset_state(
        &pool,
        200,
        AssetReserveState {
            reserve: 1952191235059762,
            hub_reserve: 1331836734693877,
            shares: 2000 * ONE,
            protocol_shares: 0,
            cap: default_weight_cap(),
            tradable: Tradability::default(),
        },
    );
}

#[test]
fn sell_with_insufficient_balance_fails() {
    let mut pool = ExtBuilder::default().build();
    assert_noop(&mut pool, |p| p.sell(LP1, 100, 200, 10000 * ONE, 0), Error::InsufficientBalance);
}

#[test]
fn sell_insufficient_amount_fails() {
    let mut pool = ExtBuilder::default().with_min_trade_amount(5 * ONE).build();
    assert_noop(&mut pool, |p| p.sell(LP1, 100, 200, ONE, 0), Error::InsufficientTradingAmount);
    assert_noop(&mut pool, |p| p.sell(LP1, LRNA, 200, ONE, 0), Error::InsufficientTradingAmount);
}

#[test]
fn hub_asset_buy_not_allowed() {
    let mut pool = ExtBuilder::default()
        .with_endowed_accounts(vec![(POOL, 0, NATIVE_AMOUNT), (POOL, 2, 1000 * ONE), (LP1, HDX, 2000 * ONE)])
        .with_initial_pool(price(0.5), price_of(1))
        .build();
    assert_noop(&mut pool, |p| p.sell(LP1, HDX, LRNA, 100 * ONE, 0), Error::NotAllowed);
}

#[test]
fn selling_assets_not_in_pool_fails() {
    let mut pool = ExtBuilder::default()
        .with_endowed_accounts(vec![
            (POOL, DAI, 1000 * ONE),
            (POOL, HDX, NATIVE_AMOUNT),
            (LP1, HDX, 1000 * ONE),
            (LP1, 1000, 1000 * ONE),
            (LP1, 2000, 1000 * ONE),
        ])
        .with_initial_pool(price(0.5), price_of(1))
        .with_registered_asset(100)
        .build();
    assert_noop(&mut pool, |p| p.sell(LP1, 1000, HDX, 50 * ONE, 10 * ONE), Error::AssetNotFound);
    assert_noop(&mut pool, |p| p.sell(LP1, HDX, 1000, 50 * ONE, 10 * ONE), Error::AssetNotFound);
    assert_noop(&mut pool, |p| p.sell(LP1, 1000, 2000, 50 * ONE, 10 * ONE), Error::AssetNotFound);
}

#[test]
fn sell_limit_works() {
    let mut pool = ExtBuilder::default()
        .with_endowed_accounts(vec![
            (POOL, DAI, 1000 * ONE),
            (POOL, HDX, NATIVE_AMOUNT),
            (LP2, 100, 2000 * ONE),
            (LP1, 100, 1000 * ONE),
        ])
        .with_registered_asset(100)
        .with_initial_pool(price(0.5), price_of(1))
        .with_token(100, price(0.65), LP2, 2000 * ONE)
        .build();
    assert_noop(&mut pool, |p| p.sell(LP1, 100, HDX, 50 * ONE, 1000 * ONE), Error::BuyLimitNotReached);
}

#[test]
fn sell_hub_asset_limit() {
    let mut pool = ExtBuilder::default()
        .with_endowed_accounts(vec![
            (POOL, DAI, 1000 * ONE),
            (POOL, HDX, NATIVE_AMOUNT),
            (LP2, 100, 2000 * ONE),
            (LP3, LRNA, 100 * ONE),
        ])
        .with_registered_asset(100)
        .with_registered_asset(200)
        .with_initial_pool(price(0.5), price_of(1))
        .with_token(100, FixedU128::one(), LP2, 2000 * ONE)
        .build();
    assert_noop(&mut pool, |p| p.sell(LP3, LRNA, HDX, 50 * ONE, 1000 * ONE), Error::BuyLimitNotReached);
}

#[test]
fn sell_hub_works() {
    let mut pool = ExtBuilder::default()
        .with_endowed_accounts(vec![
            (POOL, DAI, 1000 * ONE),
            (POOL, HDX, NATIVE_AMOUNT),
            (LP1, 100, 5000000000000000),
            (LP1, 200, 5000000000000000),
            (LP2, 100, 1000000000000000),
            (LP3, 100, 1000000000000000),
            (LP3, 1, 100000000000000),
        ])
        .with_registered_asset(100)
        .with_registered_asset(200)
        .with_initial_pool(price(0.5), price_of(1))
        .with_token(100, price(0.65), LP1, 2000 * ONE)
        .with_token(200, price(0.65), LP1, 2000 * ONE)
        .build();

    assert!(pool.add_liquidity(LP2, 100, 400000000000000).is_ok());

    assert!(pool.sell(LP3, 1, 200, 50000000000000, 10000000000000).is_ok());

    assert_balance_approx(&pool, POOL, 0, NATIVE_AMOUNT, 1);
    assert_balance_approx(&pool, POOL, 2, 1_000_000_000_000_000u128, 1);
    assert_balance_approx(&pool, POOL, 1, 13410000000000000u128, 1);
    assert_balance_approx(&pool, POOL, 100, 2400000000000000u128, 1);
    assert_balance_approx(&pool, POOL, 200, 1925925925925925u128, 1);
    assert_balance_approx(&pool, LP1, 100, 3000000000000000u128, 1);
    assert_balance_approx(&pool, LP1, 200, 3000000000000000u128, 1);
    assert_balance_approx(&pool, LP2, 100, 600000000000000u128, 1);
    assert_balance_approx(&pool, LP3, 100, 1000000000000000u128, 1);
    assert_balance_approx(&pool, LP3, 1, 50000000000000u128, 1);
    assert_balance_approx(&pool, LP3, 200, 74074074074074u128, 1);

    assert_asset_state(
        &pool,
        2,
        AssetReserveState {
            reserve: 1000000000000000,
            hub_reserve: 500000000000000,
            shares: 1000000000000000,
            protocol_shares: 0,
            cap: default_weight_cap(),
            tradable: Tradability::default(),
        },
    );

    assert_asset_state(
        &pool,
        0,
        AssetReserveState {
            reserve: 10000000000000000,
            hub_reserve: 10000000000000000,
            shares: 10000000000000000,
            protocol_shares: 0,
            cap: default_weight_cap(),
            tradable: Tradability::default(),
        },
    );

    assert_asset_state(
        &pool,
        100,
        AssetReserveState {
            reserve: 2400000000000000,
            hub_reserve: 1560000000000000,
            shares: 2400000000000000,
            protocol_shares: 0,
            cap: default_weight_cap(),
            tradable: Tradability::default(),
        },
    );

    assert_asset_state(
        &pool,
        200,
        AssetReserveState {
            reserve: 1925925925925926,
            hub_reserve: 1350000000000000,
            shares: 2000000000000000,
            protocol_shares: 0,
            cap: default_weight_cap(),
            tradable: Tradability::default(),
        },
    );

    assert_pool_state(&pool, 13410000000000000, 26820000000000000);
}

#[test]
fn sell_not_allowed_asset_fails() {
    let mut pool = ExtBuilder::default()
        .with_endowed_accounts(vec![
            (POOL, DAI, 1000 * ONE),
            (POOL, HDX, NATIVE_AMOUNT),
            (LP2, 100, 2000 * ONE),
            (LP3, 200, 2000 * ONE),
            (LP1, 100, 1000 * ONE),
        ])
        .with_registered_asset(100)
        .with_registered_asset(200)
        .with_initial_pool(price(0.5), price_of(1))
        .with_token(100, price(0.65), LP2, 2000 * ONE)
        .with_token(200, price(0.65), LP3, 2000 * ONE)
        .build();

    assert_eq!(pool.set_asset_tradable_state(100, Tradability::frozen()), Ok(()));
    assert_noop(&mut pool, |p| p.sell(LP1, 100, 200, 50 * ONE, 10 * ONE), Error::NotAllowed);

    assert_eq!(pool.set_asset_tradable_state(100, Tradability::buy()), Ok(()));
    assert_noop(&mut pool, |p| p.sell(LP1, 100, 200, 50 * ONE, 10 * ONE), Error::NotAllowed);

    assert_eq!(pool.set_asset_tradable_state(100, Tradability::sell()), Ok(()));
    assert!(pool.sell(LP1, 100, 200, 50 * ONE, 10 * ONE).is_ok());

    assert_eq!(pool.set_asset_tradable_state(200, Tradability::frozen()), Ok(()));
    assert_noop(&mut pool, |p| p.sell(LP1, 100, 200, 50 * ONE, 10 * ONE), Error::NotAllowed);

    assert_eq!(pool.set_asset_tradable_state(200, Tradability::sell()), Ok(()));
    assert_noop(&mut pool, |p| p.sell(LP1, 100, 200, 50 * ONE, 10 * ONE), Error::NotAllowed);

    assert_eq!(pool.set_asset_tradable_state(200, Tradability::buy()), Ok(()));
    assert!(pool.sell(LP1, 100, 200, 50 * ONE, 10 * ONE).is_ok());
}

#[test]
fn simple_sell_with_fee_works() {
    let mut pool = ExtBuilder::default()
        .with_endowed_accounts(vec![
            (POOL, DAI, 1000 * ONE),
            (POOL, HDX, NATIVE_AMOUNT),
            (LP2, 100, 2000 * ONE),
            (LP3, 200, 2000 * ONE),
            (LP1, 100, 1000 * ONE),
        ])
        .with_registered_asset(100)
        .with_registered_asset(200)
        .with_asset_fee(Permill::from_percent(10))
        .with_initial_pool(price_of(1), price_of(1))
        .with_token(100, FixedU128::one(), LP2, 2000 * ONE)
        .with_token(200, FixedU128::one(), LP3, 2000 * ONE)
        .build();

    let sell_amount = 50 * ONE;
    let min_limit = 10 * ONE;

    let fee = Permill::from_percent(10);
    let fee = fee.left_from_one();

    let expected_zero_fee = 47_619_047_619_047u128;
    let expected_10_percent_fee = fee.mul_floor(expected_zero_fee);

    assert!(pool.sell(LP1, 100, 200, sell_amount, min_limit).is_ok());

    assert_eq!(pool.free_balance(100, LP1), 950_000_000_000_000);
    assert_eq!(pool.free_balance(200, LP1), expected_10_percent_fee);
    assert_eq!(pool.free_balance(200, POOL), 2000000000000000 - expected_10_percent_fee);
}

#[test]
fn sell_hub_asset_should_fail_when_asset_out_is_not_allowed_to_buy() {
    let mut pool = ExtBuilder::default()
        .with_endowed_accounts(vec![
            (POOL, DAI, 1000 * ONE),
            (POOL, HDX, NATIVE_AMOUNT),
            (LP1, 100, 5000000000000000),
            (LP1, 200, 5000000000000000),
            (LP2, 100, 1000000000000000),
            (LP3, 100, 1000000000000000),
            (LP3, 1, 100000000000000),
        ])
        .with_registered_asset(100)
        .with_registered_asset(200)
        .with_initial_pool(price(0.5), price_of(1))
        .with_token(100, price(0.65), LP1, 2000 * ONE)
        .with_token(200, price(0.65), LP1, 2000 * ONE)
        .build();

    assert_eq!(
        pool.set_asset_tradable_state(200, Tradability::sell().union(Tradability::add_liquidity())),
        Ok(())
    );

    assert_noop(&mut pool, |p| p.sell(LP3, 1, 200, 50000000000000, 10000000000000), Error::NotAllowed);
}

#[test]
fn sell_should_fail_when_trading_same_assets() {
    let mut pool = ExtBuilder::default()
        .with_endowed_accounts(vec![
            (POOL, DAI, 1000 * ONE),
            (POOL, HDX, NATIVE_AMOUNT),
            (LP1, 100, 5000000000000000),
            (LP1, 200, 5000000000000000),
            (LP2, 100, 1000000000000000),
            (LP3, 100, 1000000000000000),
            (LP3, 1, 100000000000000),
        ])
        .with_registered_asset(100)
        .with_registered_asset(200)
        .with_initial_pool(price(0.5), price_of(1))
        .with_token(100, price(0.65), LP1, 2000 * ONE)
        .with_token(200, price(0.65), LP1, 2000 * ONE)
        .build();

    assert_noop(
        &mut pool,
        |p| p.sell(LP3, 100, 100, 10 * ONE, 10000000000000),
        Error::SameAssetTradeNotAllowed,
    );
}

#[test]
fn sell_should_work_when_trading_native_asset() {
    let mut pool = ExtBuilder::default()
        .with_endowed_accounts(vec![
            (POOL, DAI, 1000 * ONE),
            (POOL, HDX, NATIVE_AMOUNT),
            (LP2, 100, 2000 * ONE),
            (LP3, 200, 2000 * ONE),
            (LP1, 100, 1000 * ONE),
            (LP1, HDX, 1000 * ONE),
        ])
        .with_registered_asset(100)
        .with_registered_asset(200)
        .with_asset_fee(Permill::from_percent(10))
        .with_protocol_fee(Permill::from_percent(20))
        .with_initial_pool(price(0.5), price_of(1))
        .with_token(100, price(0.65), LP2, 2000 * ONE)
        .with_token(200, price(0.65), LP3, 2000 * ONE)
        .build();

    let liq_added = 400 * ONE;
    assert!(pool.add_liquidity(LP1, 100, liq_added).is_ok());

    let sell_amount = 50 * ONE;
    let min_limit = 10 * ONE;

    assert!(pool.sell(LP1, HDX, 200, sell_amount, min_limit).is_ok());

    assert_eq!(pool.free_balance(HDX, LP1), 950000000000000);
    assert_eq!(pool.free_balance(200, LP1), 53_471_964_352_023);
    assert_eq!(pool.free_balance(LRNA, POOL), 13354151706069728);
    assert_eq!(pool.free_balance(HDX, POOL), NATIVE_AMOUNT + sell_amount);
    assert_eq!(pool.free_balance(200, POOL), 1946528035647977);

    let hub_reserves: Balance = pool.assets().iter().map(|v| v.1.hub_reserve).sum();
    let hub_balance = pool.free_balance(LRNA, POOL);
    assert_eq!(hub_balance, hub_reserves);

    assert_asset_state(
        &pool,
        200,
        AssetReserveState {
            reserve: 1946528035647977,
            hub_reserve: 1343902949850822,
            shares: 2000 * ONE,
            protocol_shares: 0,
            cap: default_weight_cap(),
            tradable: Tradability::default(),
        },
    );
    assert_asset_state(
        &pool,
        HDX,
        AssetReserveState {
            reserve: 10050000000000000,
            hub_reserve: 9950248756218906,
            shares: 10000 * ONE,
            protocol_shares: 0,
            cap: default_weight_cap(),
            tradable: Tradability::default(),
        },
    );
}

#[test]
fn sell_should_fail_when_exceeds_max_in_ratio() {
    let mut pool = ExtBuilder::default()
        .with_endowed_accounts(vec![
            (POOL, DAI, 1000 * ONE),
            (POOL, HDX, NATIVE_AMOUNT),
            (LP2, 100, 2000 * ONE),
            (LP3, 200, 2000 * ONE),
            (LP1, 100, 1000 * ONE),
        ])
        .with_registered_asset(100)
        .with_registered_asset(200)
        .with_initial_pool(price(0.5), price_of(1))
        .with_token(100, price(0.65), LP2, 2000 * ONE)
        .with_token(200, price(0.65), LP3, 2000 * ONE)
        .with_max_in_ratio(3)
        .build();
    assert_noop(&mut pool, |p| p.sell(LP1, 100, 200, 1000 * ONE, 0u128), Error::MaxInRatioExceeded);
}

#[test]
fn sell_should_fail_when_exceeds_max_out_ratio() {
    let mut pool = ExtBuilder::default()
        .with_endowed_accounts(vec![
            (POOL, DAI, 1000 * ONE),
            (POOL, HDX, NATIVE_AMOUNT),
            (LP2, 100, 2000 * ONE),
            (LP3, 200, 2000 * ONE),
            (LP1, 100, 1000 * ONE),
        ])
        .with_registered_asset(100)
        .with_registered_asset(200)
        .with_initial_pool(price(0.5), price_of(1))
        .with_token(100, price(1.00), LP2, 2000 * ONE)
        .with_token(200, price(1.00), LP3, 100 * ONE)
        .with_max_out_ratio(3)
        .build();
    assert_noop(&mut pool, |p| p.sell(LP1, 100, 200, 1000 * ONE, 0u128), Error::MaxOutRatioExceeded);
}

#[test]
fn sell_lrna_should_fail_when_exceeds_max_in_ratio() {
    let mut pool = ExtBuilder::default()
        .with_endowed_accounts(vec![
            (POOL, DAI, 1000 * ONE),
            (POOL, HDX, NATIVE_AMOUNT),
            (LP2, 100, 2000 * ONE),
            (LP1, LRNA, 1000 * ONE),
        ])
        .with_registered_asset(100)
        .with_registered_asset(200)
        .with_initial_pool(price(0.5), price_of(1))
        .with_token(100, price(1.00), LP2, 2000 * ONE)
        .with_max_in_ratio(3)
        .build();
    assert_noop(&mut pool, |p| p.sell(LP1, LRNA, 100, 1000 * ONE, 0u128), Error::MaxInRatioExceeded);
}

#[test]
fn sell_lrna_should_fail_when_exceeds_max_out_ratio() {
    let mut pool = ExtBuilder::default()
        .with_endowed_accounts(vec![
            (POOL, DAI, 1000 * ONE),
            (POOL, HDX, NATIVE_AMOUNT),
            (LP2, 100, 2000 * ONE),
            (LP1, LRNA, 1500 * ONE),
        ])
        .with_registered_asset(100)
        .with_registered_asset(200)
        .with_initial_pool(price(0.5), price_of(1))
        .with_token(100, price(1.00), LP2, 2000 * ONE)
        .with_max_out_ratio(3)
        .build();
    assert_noop(&mut pool, |p| p.sell(LP1, LRNA, 100, 1500 * ONE, 0u128), Error::MaxOutRatioExceeded);
}

fn even_pool(asset_fee: u32, protocol_fee: u32, burn_fee: u32, withdrawal: u32, lp1_asset: AssetId) -> Omnipool {
    ExtBuilder::default()
        .with_endowed_accounts(vec![
            (POOL, DAI, 1000 * ONE),
            (POOL, HDX, NATIVE_AMOUNT),
            (LP2, 100, 2000 * ONE),
            (LP3, 200, 2000 * ONE),
            (LP1, lp1_asset, 1000 * ONE),
        ])
        .with_registered_asset(100)
        .with_registered_asset(200)
        .with_asset_fee(Permill::from_percent(asset_fee))
        .with_protocol_fee(Permill::from_percent(protocol_fee))
        .with_burn_fee(Permill::from_percent(burn_fee))
        .with_initial_pool(price_of(1), price_of(1))
        .with_token(100, price_of(1), LP2, 2000 * ONE)
        .with_token(200, price_of(1), LP3, 2000 * ONE)
        .with_on_trade_withdrawal(Permill::from_percent(withdrawal))
        .build()
}

#[test]
fn spot_price_after_sell_should_be_identical_when_protocol_fee_is_nonzero() {
    let mut pool = even_pool(0, 10, 0, 0, 100);
    let expected_sold_amount = 58_823_529_411_766;
    assert!(pool.sell(LP1, 100, 200, expected_sold_amount, 0).is_ok());
    let actual = pool.load_asset_state(200).unwrap();
    let spot_price_1 = spot_price(&actual);

    let mut pool = even_pool(10, 10, 0, 0, 100);
    let expected_sold_amount = 58_823_529_411_766;
    assert!(pool.sell(LP1, 100, 200, expected_sold_amount, 0).is_ok());
    let actual = pool.load_asset_state(200).unwrap();
    let spot_price_2 = spot_price(&actual);

    assert_eq_approx(
        spot_price_1,
        spot_price_2,
        sp_arithmetic::FixedU128::from_float(0.000000001),
        "spot price afters sells",
    );
}

#[test]
fn sell_and_buy_should_get_same_amounts_when_all_fees_are_set() {
    let buy_amount = 49513753820506u128;
    let sold_amount = 58_823_529_411_766u128;

    let mut pool = even_pool(10, 1, 50, 1, 100);
    let initial_lp1_balance_200 = pool.free_balance(200, LP1);
    assert!(pool.sell(LP1, 100, 200, sold_amount, 0).is_ok());
    let lp1_balance_200 = pool.free_balance(200, LP1);
    assert_eq!(lp1_balance_200, initial_lp1_balance_200 + buy_amount);

    let mut pool = even_pool(10, 1, 50, 1, 100);
    let initial_lp1_balance_200 = pool.free_balance(200, LP1);
    let initial_lp1_balance_100 = pool.free_balance(100, LP1);
    assert!(pool.buy(LP1, 200, 100, buy_amount, u128::MAX).is_ok());
    let lp1_balance_200 = pool.free_balance(200, LP1);
    assert_eq!(lp1_balance_200, initial_lp1_balance_200 + buy_amount);

    let lp1_balance_100 = pool.free_balance(100, LP1);
    let spent = initial_lp1_balance_100 - lp1_balance_100;
    assert_eq!(spent, sold_amount - 1);
    assert_eq!(lp1_balance_100, initial_lp1_balance_100 - sold_amount + 1);
}

#[test]
fn spot_price_after_sell_should_be_identical_when_protocol_fee_is_nonzero_and_part_of_asset_fee_is_taken() {
    let mut pool = even_pool(0, 10, 0, 50, 100);
    let expected_sold_amount = 58_823_529_411_766;
    assert!(pool.sell(LP1, 100, 200, expected_sold_amount, 0).is_ok());
    let actual = pool.load_asset_state(200).unwrap();
    let spot_price_1 = spot_price(&actual);

    let mut pool = even_pool(10, 10, 0, 10, 100);
    let expected_sold_amount = 58_823_529_411_766;
    assert!(pool.sell(LP1, 100, 200, expected_sold_amount, 0).is_ok());
    let actual = pool.load_asset_state(200).unwrap();
    let spot_price_2 = spot_price(&actual);

    assert_eq_approx(
        spot_price_1,
        spot_price_2,
        sp_arithmetic::FixedU128::from_float(0.000000001),
        "spot price afters sells",
    );
}

#[test]
fn spot_price_after_selling_hub_asset_should_be_identical_when_protocol_fee_is_nonzero() {
    let mut pool = even_pool(0, 10, 0, 0, LRNA);
    let sell_amount = 50_000_000_000_000;
    let initial_lrna_balance = pool.free_balance(LRNA, LP1);
    assert!(pool.sell(LP1, LRNA, 200, sell_amount, 0).is_ok());
    let final_lrna_balance = pool.free_balance(LRNA, LP1);
    assert_eq!(final_lrna_balance, initial_lrna_balance - sell_amount);
    let actual = pool.load_asset_state(200).unwrap();
    let spot_price_1 = spot_price(&actual);

    let mut pool = even_pool(10, 10, 0, 0, LRNA);
    let sell_amount = 50_000_000_000_000;
    let initial_lrna_balance = pool.free_balance(LRNA, LP1);
    assert!(pool.sell(LP1, LRNA, 200, sell_amount, 0).is_ok());
    let final_lrna_balance = pool.free_balance(LRNA, LP1);
    assert_eq!(final_lrna_balance, initial_lrna_balance - sell_amount);
    let actual = pool.load_asset_state(200).unwrap();
    let spot_price_2 = spot_price(&actual);

    assert_eq_approx(
        spot_price_1,
        spot_price_2,
        sp_arithmetic::FixedU128::from_float(0.000000001),
        "spot price afters sells",
    );
}

#[test]
fn spot_price_after_selling_hub_asset_should_be_identical_when_protocol_fee_is_nonzero_and_part_of_asset_fee_is_taken()
{
    let mut pool = even_pool(0, 10, 0, 5, LRNA);
    let sell_amount = 50_000_000_000_000;
    assert!(pool.sell(LP1, LRNA, 200, sell_amount, 0).is_ok());
    let actual = pool.load_asset_state(200).unwrap();
    let spot_price_1 = spot_price(&actual);

    let mut pool = even_pool(10, 10, 0, 5, LRNA);
    let sell_amount = 50_000_000_000_000;
    assert!(pool.sell(LP1, LRNA, 200, sell_amount, 0).is_ok());
    let actual = pool.load_asset_state(200).unwrap();
    let spot_price_2 = spot_price(&actual);

    assert_eq_approx(
        spot_price_1,
        spot_price_2,
        sp_arithmetic::FixedU128::from_float(0.000000001),
        "spot price afters sells",
    );
}

#[test]
fn sell_with_all_fees_and_extra_withdrawal_works() {
    let mut pool = ExtBuilder::default()
        .with_endowed_accounts(vec![
            (POOL, DAI, 1000 * ONE),
            (POOL, HDX, NATIVE_AMOUNT),
            (LP2, 100, 2000 * ONE),
            (LP3, 200, 2000 * ONE),
            (LP1, 100, 1000 * ONE),
        ])
        .with_registered_asset(100)
        .with_registered_asset(200)
        .with_asset_fee(Permill::from_percent(10))
        .with_protocol_fee(Permill::from_percent(3))
        .with_burn_fee(Permill::from_percent(50))
        .with_on_trade_withdrawal(Permill::from_percent(10))
        .with_initial_pool(price_of(1), price_of(1))
        .with_token(100, FixedU128::one(), LP2, 2000 * ONE)
        .with_token(200, FixedU128::one(), LP3, 2000 * ONE)
        .build();

    let sell_amount = 50 * ONE;
    let min_limit = 10 * ONE;

    assert!(pool.sell(LP1, 100, 200, sell_amount, min_limit).is_ok());

    assert_asset_state(
        &pool,
        100,
        AssetReserveState {
            reserve: 2000 * ONE + sell_amount,
            hub_reserve: 1951219512195122,
            shares: 2000000000000000,
            protocol_shares: 0,
            cap: default_weight_cap(),
            tradable: Tradability::default(),
        },
    );
    assert_asset_state(
        &pool,
        200,
        AssetReserveState {
            reserve: 1957936621396236,
            hub_reserve: 2051676360499704,
            shares: 2000 * ONE,
            protocol_shares: 0,
            cap: default_weight_cap(),
            tradable: Tradability::default(),
        },
    );

    assert_eq!(pool.free_balance(100, LP1), 950_000_000_000_000);
    assert_eq!(pool.free_balance(200, LP1), 41601143674053);
    assert_eq!(pool.free_balance(200, TRADE_FEE_COLLECTOR), 462234929711);
    assert_eq!(pool.free_balance(LRNA, PROTOCOL_FEE_COLLECTOR), 731707317073);
    let initial_reserve = 2000 * ONE;
    let omnipool_200_reserve = pool.free_balance(200, POOL);
    let fee_collector = pool.free_balance(200, TRADE_FEE_COLLECTOR);
    let buy_amount = pool.free_balance(200, LP1);
    assert_eq!(initial_reserve, omnipool_200_reserve + buy_amount + fee_collector);
}
