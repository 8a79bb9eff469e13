//! Payment of transaction fees of the virtual machine in the currency of the
//! payer: what is withdrawn up front, what is given back once the real fee
//! is known, and what goes to the treasury.
//!
//! The price service and the trader are not part of this crate. Where a
//! decision needs their answer, the functions here say what to ask next and
//! take the answer as a plain value.

use vstd::prelude::*;
use crate::arith::{multiply_by_rational_with_rounding, mul_div, Balance, Rounding};
use crate::error::Error;
use crate::ledger::{credit, credited, Balances, Ledger};
use crate::state::{AccountId, AssetId};

verus! {

/// A 256-bit amount, as its upper and lower half.
#[derive(Clone, Copy, Debug, PartialEq, Eq, Structural)]
pub struct U256 {
    /// The amount divided by two to the 128th.
    pub high: u128,
    /// The rest of that division.
    pub low: u128,
}

impl U256 {
    /// The number that the two halves stand for.
    pub open spec fn value(self) -> nat {
        self.high as nat * 0x1_0000_0000_0000_0000_0000_0000_0000_0000 + self.low as nat
    }

    /// The amount `x`.
    pub fn from_u128(x: u128) -> (res: U256)
        ensures
            res.value() == x,
    {
        U256 { high: 0, low: x }
    }

    /// Whether the amount is zero.
    pub fn is_zero(&self) -> (res: bool)
        ensures
            res == (self.value() == 0),
    {
        self.high == 0 && self.low == 0
    }

    /// The amount as 128 bits, or the largest such number where it does not
    /// fit.
    pub fn unique_saturated_into(&self) -> (res: Balance)
        ensures
            res == saturated(self.value()),
    {
        if self.high == 0 {
            self.low
        } else {
            u128::MAX
        }
    }
}

/// `x`, or the largest 128-bit number where `x` is larger.
pub open spec fn saturated(x: nat) -> u128 {
    if x > u128::MAX {
        u128::MAX
    } else {
        x as u128
    }
}

/// `a - b`, or zero where `b` is larger.
pub open spec fn floored_difference(a: u128, b: u128) -> u128 {
    if b > a {
        0
    } else {
        (a - b) as u128
    }
}

/// A price as the ratio `n / d`.
#[derive(Clone, Copy, Debug, PartialEq, Eq, Structural)]
pub struct EmaPrice {
    /// The numerator.
    pub n: u128,
    /// The denominator.
    pub d: u128,
}

impl Default for EmaPrice {
    fn default() -> (res: EmaPrice)
        ensures
            res == (EmaPrice { n: 0, d: 0 }),
    {
        EmaPrice { n: 0, d: 0 }
    }
}

/// A fee that was taken from a payer: how much, of which asset, and at which
/// price of that asset it was reckoned.
#[derive(Clone, Copy, Debug)]
pub struct EvmPaymentInfo<Price> {
    /// The amount taken.
    pub amount: Balance,
    /// The asset it was taken in.
    pub asset_id: AssetId,
    /// The price at which the fee was converted.
    pub price: Price,
}

/// A fee with its price as a ratio.
pub type Payment = EvmPaymentInfo<EmaPrice>;

impl<Price> EvmPaymentInfo<Price> {
    /// The two fees as one, as [`EvmPaymentInfo::merge`] forms it.
    pub open spec fn merge_spec(self, other: Self) -> Self {
        EvmPaymentInfo {
            amount: saturated(self.amount as nat + other.amount as nat),
            asset_id: self.asset_id,
            price: self.price,
        }
    }

    /// Joins two fees: the amounts are added, stopping at the largest
    /// number; asset and price are those of `self`.
    pub fn merge(self, other: Self) -> (res: Self)
        ensures
            res == self.merge_spec(other),
    {
        EvmPaymentInfo {
            amount: self.amount.saturating_add(other.amount),
            asset_id: self.asset_id,
            price: self.price,
        }
    }

    /// Drops a fee of nothing; a fee of something is handed back.
    pub fn try_drop(self) -> (res: Result<(), Self>)
        ensures
            res == (if self.amount == 0 {
                Ok::<(), Self>(())
            } else {
                Err::<(), Self>(self)
            }),
    {
        if self.amount == 0 {
            Ok(())
        } else {
            Err(self)
        }
    }
}

/// The fee of nothing, in asset zero, without a price.
pub open spec fn no_payment() -> Payment {
    EvmPaymentInfo { amount: 0, asset_id: 0, price: EmaPrice { n: 0, d: 0 } }
}

impl Default for EvmPaymentInfo<EmaPrice> {
    fn default() -> (res: Payment)
        ensures
            res == no_payment(),
    {
        EvmPaymentInfo { amount: 0, asset_id: 0, price: EmaPrice { n: 0, d: 0 } }
    }
}

/// Why a fee could not be withdrawn.
#[derive(Clone, Copy, Debug, PartialEq, Eq, Structural)]
pub enum EvmFeeError {
    /// The fee could not be converted, or the payer's currency not be traded.
    WithdrawFailed,
    /// The payer holds too little.
    BalanceLow,
}

/// Where a withdrawal stands: what is to be asked of a service next, or how
/// the withdrawal ended.
#[derive(Clone, Copy, Debug)]
pub enum Withdrawal {
    /// The price service is to convert `amount` of `from` into `to`. `swap`
    /// says that `to` is not the payer's `currency` and has to be bought
    /// with it.
    Convert { from: AssetId, to: AssetId, amount: Balance, currency: AssetId, swap: bool },
    /// The trader is to say what of `asset_in` buys `amount_out` of
    /// `asset_out`.
    QuoteAmountIn { asset_in: AssetId, asset_out: AssetId, amount_out: Balance, price: EmaPrice },
    /// The trader is to say what fee it takes on `amount_in`.
    QuoteFee {
        asset_in: AssetId,
        asset_out: AssetId,
        amount_out: Balance,
        amount_in: Balance,
        price: EmaPrice,
    },
    /// The trader is to buy `amount_out` of `asset_out` for the payer, for at
    /// most `max_limit` of `asset_in`.
    Buy {
        asset_in: AssetId,
        asset_out: AssetId,
        amount_out: Balance,
        max_limit: Balance,
        price: EmaPrice,
    },
    /// The ledger is to destroy exactly `amount` of `asset` of the payer.
    Burn { asset: AssetId, amount: Balance, price: EmaPrice },
    /// The withdrawal has ended.
    Finished(Result<Option<Payment>, EvmFeeError>),
}

/// What a service answered.
#[derive(Clone, Copy, Debug)]
pub enum ServiceAnswer {
    /// The converted amount and the price used, or that there is no price.
    Converted(Option<(Balance, EmaPrice)>),
    /// An amount quoted by the trader or destroyed by the ledger, or that the
    /// service failed.
    Amount(Option<Balance>),
    /// Whether the purchase went through.
    Bought(bool),
}

/// What follows once `converted` of `asset` is known to be the fee: nothing
/// can be withdrawn for a fee of zero.
pub open spec fn burn_or_fail(asset: AssetId, converted: Balance, price: EmaPrice) -> Withdrawal {
    if converted == 0 {
        Withdrawal::Finished(Err(EvmFeeError::WithdrawFailed))
    } else {
        Withdrawal::Burn { asset, amount: converted, price }
    }
}

/// How a withdrawal begins.
pub open spec fn withdraw_fee_spec(
    fee: U256,
    account_fee_currency: AssetId,
    is_transaction_fee_currency: bool,
    evm_fee_asset: AssetId,
    dot_asset: AssetId,
) -> Withdrawal {
    if fee.value() == 0 {
        Withdrawal::Finished(Ok(None))
    } else {
        Withdrawal::Convert {
            from: evm_fee_asset,
            to: if is_transaction_fee_currency {
                account_fee_currency
            } else {
                dot_asset
            },
            amount: saturated(fee.value()),
            currency: account_fee_currency,
            swap: !is_transaction_fee_currency,
        }
    }
}

/// How a withdrawal goes on after an answer. An answer of the wrong kind
/// ends it as failed; a withdrawal that has ended stays as it is.
pub open spec fn withdraw_fee_step_spec(state: Withdrawal, answer: ServiceAnswer) -> Withdrawal {
    match (state, answer) {
        (Withdrawal::Finished(r), _) => Withdrawal::Finished(r),
        (
            Withdrawal::Convert { from, to, amount, currency, swap },
            ServiceAnswer::Converted(Some((converted, price))),
        ) => if swap {
            Withdrawal::QuoteAmountIn { asset_in: currency, asset_out: to, amount_out: converted, price }
        } else {
            burn_or_fail(to, converted, price)
        },
        (
            Withdrawal::QuoteAmountIn { asset_in, asset_out, amount_out, price },
            ServiceAnswer::Amount(Some(amount_in)),
        ) => Withdrawal::QuoteFee { asset_in, asset_out, amount_out, amount_in, price },
        (
            Withdrawal::QuoteFee { asset_in, asset_out, amount_out, amount_in, price },
            ServiceAnswer::Amount(Some(pool_fee)),
        ) => Withdrawal::Buy {
            asset_in,
            asset_out,
            amount_out,
            max_limit: saturated(amount_in as nat + pool_fee as nat),
            price,
        },
        (
            Withdrawal::Buy { asset_in, asset_out, amount_out, max_limit, price },
            ServiceAnswer::Bought(true),
        ) => burn_or_fail(asset_out, amount_out, price),
        (Withdrawal::Burn { asset, amount, price }, ServiceAnswer::Amount(Some(burned))) => {
            Withdrawal::Finished(Ok(Some(EvmPaymentInfo { amount: burned, asset_id: asset, price })))
        },
        (Withdrawal::Burn { asset, amount, price }, _) => Withdrawal::Finished(
            Err(EvmFeeError::BalanceLow),
        ),
        _ => Withdrawal::Finished(Err(EvmFeeError::WithdrawFailed)),
    }
}

/// The withdrawal as one function of what the services answer: `converted`
/// from the price service, `quoted_in` and `quoted_fee` from the trader,
/// `bought` for the purchase and `burned` from the ledger.
pub open spec fn withdraw_fee_result(
    fee: U256,
    account_fee_currency: AssetId,
    is_transaction_fee_currency: bool,
    dot_asset: AssetId,
    converted: Option<(Balance, EmaPrice)>,
    quoted_in: Option<Balance>,
    quoted_fee: Option<Balance>,
    bought: bool,
    burned: Option<Balance>,
) -> Result<Option<Payment>, EvmFeeError> {
    if fee.value() == 0 {
        Ok(None)
    } else if converted is None {
        Err(EvmFeeError::WithdrawFailed)
    } else if !is_transaction_fee_currency && (quoted_in is None || quoted_fee is None || !bought) {
        Err(EvmFeeError::WithdrawFailed)
    } else if converted->Some_0.0 == 0 {
        Err(EvmFeeError::WithdrawFailed)
    } else if burned is None {
        Err(EvmFeeError::BalanceLow)
    } else {
        Ok(
            Some(
                EvmPaymentInfo {
                    amount: burned->Some_0,
                    asset_id: if is_transaction_fee_currency {
                        account_fee_currency
                    } else {
                        dot_asset
                    },
                    price: converted->Some_0.1,
                },
            ),
        )
    }
}

/// Withdraws the fee of a transaction in the currency of the payer.
///
/// Its functions decide; the caller asks the services and applies what they
/// are told.
pub struct TransferEvmFees;

impl TransferEvmFees {
    /// Begins the withdrawal of `fee`, given in the fee asset of the virtual
    /// machine, from a payer whose currency is `account_fee_currency`.
    ///
    /// A fee of zero withdraws nothing. A currency that fees can be paid in
    /// is converted into directly; any other is used to buy `dot_asset`,
    /// which then pays the fee.
    pub fn withdraw_fee(
        fee: &U256,
        account_fee_currency: AssetId,
        is_transaction_fee_currency: bool,
        evm_fee_asset: AssetId,
        dot_asset: AssetId,
    ) -> (res: Withdrawal)
        ensures
            res == withdraw_fee_spec(
                *fee,
                account_fee_currency,
                is_transaction_fee_currency,
                evm_fee_asset,
                dot_asset,
            ),
    {
        if fee.is_zero() {
            return Withdrawal::Finished(Ok(None));
        }
        let amount = fee.unique_saturated_into();
        if is_transaction_fee_currency {
            Withdrawal::Convert {
                from: evm_fee_asset,
                to: account_fee_currency,
                amount,
                currency: account_fee_currency,
                swap: false,
            }
        } else {
            Withdrawal::Convert {
                from: evm_fee_asset,
                to: dot_asset,
                amount,
                currency: account_fee_currency,
                swap: true,
            }
        }
    }

    /// Takes the withdrawal one step on, with the answer to what `state`
    /// asked.
    pub fn withdraw_fee_step(state: Withdrawal, answer: ServiceAnswer) -> (res: Withdrawal)
        ensures
            res == withdraw_fee_step_spec(state, answer),
    {
        match state {
            Withdrawal::Finished(r) => Withdrawal::Finished(r),
            Withdrawal::Convert { from, to, amount, currency, swap } => match answer {
                ServiceAnswer::Converted(Some((converted, price))) => if swap {
                    Withdrawal::QuoteAmountIn {
                        asset_in: currency,
                        asset_out: to,
                        amount_out: converted,
                        price,
                    }
                } else {
                    Self::burn_or_fail(to, converted, price)
                },
                _ => Withdrawal::Finished(Err(EvmFeeError::WithdrawFailed)),
            },
            Withdrawal::QuoteAmountIn { asset_in, asset_out, amount_out, price } => match answer {
                ServiceAnswer::Amount(Some(amount_in)) => Withdrawal::QuoteFee {
                    asset_in,
                    asset_out,
                    amount_out,
                    amount_in,
                    price,
                },
                _ => Withdrawal::Finished(Err(EvmFeeError::WithdrawFailed)),
            },
            Withdrawal::QuoteFee { asset_in, asset_out, amount_out, amount_in, price } => match answer {
                ServiceAnswer::Amount(Some(pool_fee)) => Withdrawal::Buy {
                    asset_in,
                    asset_out,
                    amount_out,
                    max_limit: amount_in.saturating_add(pool_fee),
                    price,
                },
                _ => Withdrawal::Finished(Err(EvmFeeError::WithdrawFailed)),
            },
            Withdrawal::Buy { asset_in, asset_out, amount_out, max_limit, price } => match answer {
                ServiceAnswer::Bought(true) => Self::burn_or_fail(asset_out, amount_out, price),
                _ => Withdrawal::Finished(Err(EvmFeeError::WithdrawFailed)),
            },
            Withdrawal::Burn { asset, amount, price } => match answer {
                ServiceAnswer::Amount(Some(burned)) => Withdrawal::Finished(
                    Ok(Some(EvmPaymentInfo { amount: burned, asset_id: asset, price })),
                ),
                _ => Withdrawal::Finished(Err(EvmFeeError::BalanceLow)),
            },
        }
    }

    fn burn_or_fail(asset: AssetId, converted: Balance, price: EmaPrice) -> (res: Withdrawal)
        ensures
            res == burn_or_fail(asset, converted, price),
    {
        if converted == 0 {
            Withdrawal::Finished(Err(EvmFeeError::WithdrawFailed))
        } else {
            Withdrawal::Burn { asset, amount: converted, price }
        }
    }

    /// Whether `account` could pay a fee that the price service converted to
    /// `converted` of `fee_currency`: there must be a price, the converted
    /// fee must not be zero, and the account must hold it.
    pub fn can_withdraw(
        ledger: &Ledger,
        account: AccountId,
        fee_currency: AssetId,
        converted: Option<(Balance, EmaPrice)>,
    ) -> (res: Result<(), EvmFeeError>)
        requires
            ledger.wf(),
        ensures
            res is Ok <==> (converted matches Some(c) && c.0 != 0 && ledger@[(account, fee_currency)]
                >= c.0),
            res matches Err(e) ==> e == EvmFeeError::BalanceLow,
    {
        match converted {
            Some((amount, _)) => {
                if amount == 0 || ledger.free_balance(fee_currency, account) < amount {
                    Err(EvmFeeError::BalanceLow)
                } else {
                    Ok(())
                }
            },
            None => Err(EvmFeeError::BalanceLow),
        }
    }

    /// Settles a fee once the real fee is known. What was withdrawn beyond
    /// `corrected_fee`, at the price of the withdrawal and rounded up in
    /// favour of the treasury, is minted back to `account`. Returns what is
    /// left for the treasury; `None` where nothing had been withdrawn.
    ///
    /// Where the real fee cannot be converted, or the refund cannot be
    /// minted, all that was withdrawn is left for the treasury.
    pub fn correct_and_deposit_fee(
        ledger: &mut Ledger,
        account: AccountId,
        corrected_fee: &U256,
        already_withdrawn: Option<Payment>,
    ) -> (res: Option<Payment>)
        requires
            old(ledger).wf(),
        ensures
            final(ledger).wf(),
            final(ledger)@ == corrected_balances(old(ledger)@, account, *corrected_fee, already_withdrawn),
            res == left_for_treasury(old(ledger)@, account, *corrected_fee, already_withdrawn),
    {
        let paid = match already_withdrawn {
            Some(p) => p,
            None => { return None; },
        };
        let adjusted = match multiply_by_rational_with_rounding(
            corrected_fee.unique_saturated_into(),
            paid.price.n,
            paid.price.d,
            Rounding::Up,
        ) {
            Some(converted) => {
                let refund_amount = paid.amount.saturating_sub(converted);
                let refund_imbalance = match ledger.mint_into(paid.asset_id, account, refund_amount) {
                    Ok(_) => 0,
                    Err(_) => refund_amount,
                };
                paid.amount.saturating_sub(refund_amount).saturating_add(refund_imbalance)
            },
            None => paid.amount,
        };
        Some(EvmPaymentInfo { amount: adjusted, asset_id: paid.asset_id, price: paid.price })
    }
}

/// What is to be given back of `paid` once the real fee is `corrected_fee`;
/// `None` where the real fee cannot be converted at the price of `paid`.
pub open spec fn refund_due(paid: Payment, corrected_fee: U256) -> Option<Balance> {
    match mul_div(
        saturated(corrected_fee.value()) as nat,
        paid.price.n as nat,
        paid.price.d as nat,
        Rounding::Up,
    ) {
        Some(converted) => Some(floored_difference(paid.amount, converted)),
        None => None,
    }
}

/// The balances after the refund: the payer has the refund where there is
/// one and it fits.
pub open spec fn corrected_balances(
    b: Balances,
    account: AccountId,
    corrected_fee: U256,
    already_withdrawn: Option<Payment>,
) -> Balances {
    match already_withdrawn {
        None => b,
        Some(paid) => match refund_due(paid, corrected_fee) {
            None => b,
            Some(refund) => match credit(b, account, paid.asset_id, refund as nat) {
                None => b,
                Some(b2) => b2,
            },
        },
    }
}

/// What is left for the treasury after the refund: the fee withdrawn less
/// the refund that the payer received.
pub open spec fn left_for_treasury(
    b: Balances,
    account: AccountId,
    corrected_fee: U256,
    already_withdrawn: Option<Payment>,
) -> Option<Payment> {
    match already_withdrawn {
        None => None,
        Some(paid) => match refund_due(paid, corrected_fee) {
            None => Some(paid),
            Some(refund) => match credit(b, account, paid.asset_id, refund as nat) {
                None => Some(paid),
                Some(_) => Some(
                    EvmPaymentInfo {
                        amount: (paid.amount - refund) as u128,
                        asset_id: paid.asset_id,
                        price: paid.price,
                    },
                ),
            },
        },
    }
}

/// Asking each service in turn and stepping on with its answer ends in what
/// [`withdraw_fee_result`] says of those answers.
pub proof fn lemma_withdraw_fee_run(
    fee: U256,
    account_fee_currency: AssetId,
    is_transaction_fee_currency: bool,
    evm_fee_asset: AssetId,
    dot_asset: AssetId,
    converted: Option<(Balance, EmaPrice)>,
    quoted_in: Option<Balance>,
    quoted_fee: Option<Balance>,
    bought: bool,
    burned: Option<Balance>,
)
    ensures
        ({
            let s0 = withdraw_fee_spec(
                fee,
                account_fee_currency,
                is_transaction_fee_currency,
                evm_fee_asset,
                dot_asset,
            );
            let s1 = withdraw_fee_step_spec(s0, ServiceAnswer::Converted(converted));
            let s2 = if is_transaction_fee_currency {
                s1
            } else {
                withdraw_fee_step_spec(
                    withdraw_fee_step_spec(
                        withdraw_fee_step_spec(s1, ServiceAnswer::Amount(quoted_in)),
                        ServiceAnswer::Amount(quoted_fee),
                    ),
                    ServiceAnswer::Bought(bought),
                )
            };
            withdraw_fee_step_spec(s2, ServiceAnswer::Amount(burned))
        }) == Withdrawal::Finished(
            withdraw_fee_result(
                fee,
                account_fee_currency,
                is_transaction_fee_currency,
                dot_asset,
                converted,
                quoted_in,
                quoted_fee,
                bought,
                burned,
            ),
        ),
{
}

/// The fees in `s` joined into one, the later fee taking each earlier one
/// in.
pub open spec fn merged(s: Seq<Payment>) -> Payment
    decreases s.len(),
{
    if s.len() == 0 {
        no_payment()
    } else {
        s.last().merge_spec(merged(s.drop_last()))
    }
}

/// The sum of the amounts of the fees in `s`.
pub open spec fn total_amount(s: Seq<Payment>) -> nat
    decreases s.len(),
{
    if s.len() == 0 {
        0
    } else {
        total_amount(s.drop_last()) + s.last().amount as nat
    }
}

/// Joined fees hold the sum of all amounts, stopping at the largest number,
/// in the asset and at the price of the last fee.
pub proof fn lemma_merged(s: Seq<Payment>)
    ensures
        merged(s).amount == saturated(total_amount(s)),
        s.len() > 0 ==> merged(s).asset_id == s.last().asset_id && merged(s).price == s.last().price,
        s.len() == 0 ==> merged(s) == no_payment(),
    decreases s.len(),
{
    if s.len() > 0 {
        lemma_merged(s.drop_last());
    }
}

/// Hands fees on to the treasury.
pub struct DepositEvmFeeToTreasury;

impl DepositEvmFeeToTreasury {
    /// Joins `amounts` into one fee and hands it to
    /// [`DepositEvmFeeToTreasury::on_unbalanced`].
    pub fn on_unbalanceds(ledger: &mut Ledger, treasury: AccountId, amounts: &Vec<Payment>) -> (res: Result<
        (),
        Error,
    >)
        requires
            old(ledger).wf(),
        ensures
            final(ledger).wf(),
            deposited(old(ledger)@, final(ledger)@, treasury, merged(amounts@), res),
    {
        let mut joined = EvmPaymentInfo::<EmaPrice>::default();
        let mut i: usize = 0;
        while i < amounts.len()
            invariant
                i <= amounts.len(),
                joined == merged(amounts@.subrange(0, i as int)),
            decreases amounts.len() - i,
        {
            proof {
                assert(amounts@.subrange(0, i + 1).drop_last() =~= amounts@.subrange(0, i as int));
            }
            joined = amounts[i].merge(joined);
            i = i + 1;
        }
        proof {
            assert(amounts@.subrange(0, i as int) =~= amounts@);
        }
        Self::on_unbalanced(ledger, treasury, joined)
    }

    /// Deposits a fee, unless it is a fee of nothing.
    pub fn on_unbalanced(ledger: &mut Ledger, treasury: AccountId, payment_info: Payment) -> (res: Result<
        (),
        Error,
    >)
        requires
            old(ledger).wf(),
        ensures
            final(ledger).wf(),
            deposited(old(ledger)@, final(ledger)@, treasury, payment_info, res),
    {
        if payment_info.amount == 0 {
            proof {
                assert(old(ledger)@.insert((treasury, payment_info.asset_id), old(ledger)@[(treasury, payment_info.asset_id)]) =~= old(ledger)@);
            }
            Ok(())
        } else {
            Self::on_nonzero_unbalanced(ledger, treasury, payment_info)
        }
    }

    /// Mints the fee to the account of the treasury.
    pub fn on_nonzero_unbalanced(ledger: &mut Ledger, treasury: AccountId, payment_info: Payment) -> (res:
        Result<(), Error>)
        requires
            old(ledger).wf(),
        ensures
            final(ledger).wf(),
            deposited(old(ledger)@, final(ledger)@, treasury, payment_info, res),
    {
        ledger.mint_into(payment_info.asset_id, treasury, payment_info.amount)
    }
}

/// `after` and `res` are what depositing `info` to `treasury` on `before`
/// gives: the treasury has the fee, or nothing has changed and the error
/// says why.
pub open spec fn deposited(
    before: Balances,
    after: Balances,
    treasury: AccountId,
    info: Payment,
    res: Result<(), Error>,
) -> bool {
    match res {
        Ok(_) => credited(before, treasury, info.asset_id, info.amount as nat) == Ok::<Balances, Error>(
            after,
        ),
        Err(e) => credited(before, treasury, info.asset_id, info.amount as nat) == Err::<
            Balances,
            Error,
        >(e) && after == before,
    }
}

/// Chooses the currency in which an account pays fees.
pub struct FeeCurrencyOverrideOrDefault;

impl FeeCurrencyOverrideOrDefault {
    /// The currency of an account: the override where one is set; else the
    /// currency of the virtual machine for its accounts, and the account's
    /// own currency for all others.
    pub fn get(
        currency_override: Option<AssetId>,
        is_evm_account: bool,
        evm_currency: AssetId,
        account_currency: AssetId,
    ) -> (res: AssetId)
        ensures
            res == match currency_override {
                Some(currency) => currency,
                None => if is_evm_account {
                    evm_currency
                } else {
                    account_currency
                },
            },
    {
        match currency_override {
            Some(currency) => currency,
            None => if is_evm_account {
                evm_currency
            } else {
                account_currency
            },
        }
    }
}

} // verus!
