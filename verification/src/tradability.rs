//! Permission flags of an asset: which kinds of operation it admits.

use vstd::prelude::*;

verus! {

/// Bit of the flag that admits selling the asset into the pool.
pub const SELL_BIT: u8 = 1;

/// Bit of the flag that admits buying the asset from the pool.
pub const BUY_BIT: u8 = 2;

/// Bit of the flag that admits adding liquidity of the asset.
pub const ADD_LIQUIDITY_BIT: u8 = 4;

/// Bit of the flag that admits removing liquidity of the asset.
pub const REMOVE_LIQUIDITY_BIT: u8 = 8;

/// The set of operations that an asset admits. The four flags are
/// independent of each other; a set without any flag is frozen.
#[derive(Clone, Copy, Debug, PartialEq, Eq, Structural)]
pub struct Tradability {
    /// The asset may be sold into the pool.
    pub sell: bool,
    /// The asset may be bought from the pool.
    pub buy: bool,
    /// Liquidity of the asset may be added.
    pub add_liquidity: bool,
    /// Liquidity of the asset may be removed.
    pub remove_liquidity: bool,
}

impl Tradability {
    /// The flags as one number, one bit per flag.
    pub open spec fn bits_spec(self) -> nat {
        ((if self.sell {
            1nat
        } else {
            0nat
        }) + (if self.buy {
            2nat
        } else {
            0nat
        }) + (if self.add_liquidity {
            4nat
        } else {
            0nat
        }) + (if self.remove_liquidity {
            8nat
        } else {
            0nat
        })) as nat
    }

    /// The set that holds the flags of both sets.
    pub open spec fn union_spec(self, other: Tradability) -> Tradability {
        Tradability {
            sell: self.sell || other.sell,
            buy: self.buy || other.buy,
            add_liquidity: self.add_liquidity || other.add_liquidity,
            remove_liquidity: self.remove_liquidity || other.remove_liquidity,
        }
    }

    /// Whether every flag of `other` is in `self`.
    pub open spec fn contains_spec(self, other: Tradability) -> bool {
        &&& other.sell ==> self.sell
        &&& other.buy ==> self.buy
        &&& other.add_liquidity ==> self.add_liquidity
        &&& other.remove_liquidity ==> self.remove_liquidity
    }

    /// No operation is admitted.
    pub fn frozen() -> (res: Tradability)
        ensures
            res == (Tradability { sell: false, buy: false, add_liquidity: false, remove_liquidity: false }),
    {
        Tradability { sell: false, buy: false, add_liquidity: false, remove_liquidity: false }
    }

    /// Only selling is admitted.
    pub fn sell() -> (res: Tradability)
        ensures
            res == (Tradability { sell: true, buy: false, add_liquidity: false, remove_liquidity: false }),
    {
        Tradability { sell: true, buy: false, add_liquidity: false, remove_liquidity: false }
    }

    /// Only buying is admitted.
    pub fn buy() -> (res: Tradability)
        ensures
            res == (Tradability { sell: false, buy: true, add_liquidity: false, remove_liquidity: false }),
    {
        Tradability { sell: false, buy: true, add_liquidity: false, remove_liquidity: false }
    }

    /// Only adding liquidity is admitted.
    pub fn add_liquidity() -> (res: Tradability)
        ensures
            res == (Tradability { sell: false, buy: false, add_liquidity: true, remove_liquidity: false }),
    {
        Tradability { sell: false, buy: false, add_liquidity: true, remove_liquidity: false }
    }

    /// Only removing liquidity is admitted.
    pub fn remove_liquidity() -> (res: Tradability)
        ensures
            res == (Tradability { sell: false, buy: false, add_liquidity: false, remove_liquidity: true }),
    {
        Tradability { sell: false, buy: false, add_liquidity: false, remove_liquidity: true }
    }

    /// Every operation is admitted.
    pub fn all() -> (res: Tradability)
        ensures
            res == (Tradability { sell: true, buy: true, add_liquidity: true, remove_liquidity: true }),
    {
        Tradability { sell: true, buy: true, add_liquidity: true, remove_liquidity: true }
    }

    /// The flags of both sets.
    pub fn union(self, other: Tradability) -> (res: Tradability)
        ensures
            res == self.union_spec(other),
    {
        Tradability {
            sell: self.sell || other.sell,
            buy: self.buy || other.buy,
            add_liquidity: self.add_liquidity || other.add_liquidity,
            remove_liquidity: self.remove_liquidity || other.remove_liquidity,
        }
    }

    /// Whether every flag of `other` is set in `self`.
    pub fn contains(self, other: Tradability) -> (res: bool)
        ensures
            res == self.contains_spec(other),
    {
        (!other.sell || self.sell) && (!other.buy || self.buy) && (!other.add_liquidity
            || self.add_liquidity) && (!other.remove_liquidity || self.remove_liquidity)
    }

    /// Whether no flag is set.
    pub fn is_frozen(self) -> (res: bool)
        ensures
            res == (self.bits_spec() == 0),
            res == (self == (Tradability { sell: false, buy: false, add_liquidity: false, remove_liquidity: false })),
    {
        !self.sell && !self.buy && !self.add_liquidity && !self.remove_liquidity
    }

    /// The flags packed into the low four bits of a byte.
    pub fn bits(self) -> (res: u8)
        ensures
            res == self.bits_spec(),
            res < 16,
    {
        let mut b: u8 = 0;
        if self.sell {
            b = b + SELL_BIT;
        }
        if self.buy {
            b = b + BUY_BIT;
        }
        if self.add_liquidity {
            b = b + ADD_LIQUIDITY_BIT;
        }
        if self.remove_liquidity {
            b = b + REMOVE_LIQUIDITY_BIT;
        }
        b
    }

    /// The set whose packed form is `bits`; `None` when a bit beyond the four
    /// flags is set.
    pub fn from_bits(bits: u8) -> (res: Option<Tradability>)
        ensures
            res is Some <==> bits < 16,
            res matches Some(t) ==> t.bits_spec() == bits,
    {
        if bits >= 16 {
            return None;
        }
        let remove_liquidity = bits >= 8;
        let r3: u8 = if remove_liquidity {
            bits - 8
        } else {
            bits
        };
        let add_liquidity = r3 >= 4;
        let r2: u8 = if add_liquidity {
            r3 - 4
        } else {
            r3
        };
        let buy = r2 >= 2;
        let r1: u8 = if buy {
            r2 - 2
        } else {
            r2
        };
        let sell = r1 >= 1;
        Some(Tradability { sell, buy, add_liquidity, remove_liquidity })
    }
}

impl Default for Tradability {
    /// A new asset admits every operation.
    fn default() -> (res: Tradability)
        ensures
            res == (Tradability { sell: true, buy: true, add_liquidity: true, remove_liquidity: true }),
    {
        Tradability { sell: true, buy: true, add_liquidity: true, remove_liquidity: true }
    }
}

/// Packing the flags loses nothing: two sets with the same packed form are the
/// same set.
pub proof fn lemma_bits_injective(a: Tradability, b: Tradability)
    requires
        a.bits_spec() == b.bits_spec(),
    ensures
        a == b,
{
}

} // verus!
