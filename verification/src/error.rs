//! The ways in which an operation of the pool is refused.

use vstd::prelude::*;

verus! {

/// Why an operation was refused. A refused operation changes nothing.
#[derive(Clone, Copy, Debug, PartialEq, Eq, Structural)]
pub enum Error {
    /// The asset is not in the pool.
    AssetNotFound,
    /// The asset is in the pool already, or is the hub asset.
    AssetAlreadyAdded,
    /// The asset is not known to the registry of assets.
    AssetNotRegistered,
    /// The initial price gives the asset no hub reserve.
    InvalidInitialAssetPrice,
    /// The account holds less than the operation takes from it.
    InsufficientBalance,
    /// The amount is below the least amount that may be traded.
    InsufficientTradingAmount,
    /// The amount is below the least amount of liquidity that may be added.
    InsufficientLiquidity,
    /// The asset sold and the asset bought are the same.
    SameAssetTradeNotAllowed,
    /// The flags of an asset forbid the operation; the hub asset was to be
    /// bought; or the pool's own account was to pay hub asset into a trade,
    /// to give by transfer, or to receive hub asset that no record accounts
    /// for.
    NotAllowed,
    /// A sale would pay out less than the least amount asked for.
    BuyLimitNotReached,
    /// A purchase would cost more than the most that was offered.
    SellLimitExceeded,
    /// The amount entering is more than the allowed fraction of the reserve.
    MaxInRatioExceeded,
    /// The amount leaving is more than the allowed fraction of the reserve.
    MaxOutRatioExceeded,
    /// The asset would stand for more of the pool than its cap allows.
    AssetWeightCapExceeded,
    /// The price has moved too far from the price at which the position was
    /// opened.
    PriceDifferenceTooHigh,
    /// There is no position with this identifier.
    PositionNotFound,
    /// The position belongs to another account.
    Forbidden,
    /// The position holds fewer shares than are to be withdrawn.
    InsufficientShares,
    /// A computation has no result: a value does not fit 128 bits, or a
    /// reserve that divides is empty.
    Overflow,
    /// A ratio limit of the configuration is zero.
    DivisionByZero,
}

} // verus!
