//! Pricing and balance-update core of a hub-mediated liquidity pool, together
//! with the fee-payment and treasury rules that sit beside it.
//!
//! Every asset of the pool trades against one shared hub asset. The crate
//! holds the fixed-point kernel, the per-asset reserve records, the trade and
//! liquidity engines, and the permission flags that gate them; each public
//! function carries a contract over a mathematical model of the state.
//!
//! - [`arith`]: rounded products with ratios, fractions and prices.
//! - [`tradability`] and [`state`]: the flags and the record of an asset.
//! - [`math`]: the pricing kernel.
//! - [`table`] and [`ledger`]: keyed tables and the balances of accounts.
//! - [`model`]: the model of a pool and what each operation leads to.
//! - [`pool`]: the pool itself.
//! - [`laws`]: what holds of the pool whatever it is asked to do.
//! - [`evm_fee`] and [`governance`]: fees of the virtual machine, the
//!   treasury and the privilege of origins.

pub mod arith;
pub mod error;
pub mod evm_fee;
pub mod governance;
pub mod laws;
pub mod ledger;
pub mod math;
pub mod model;
pub mod pool;
pub mod state;
pub mod table;
pub mod tradability;
