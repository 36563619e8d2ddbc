//! How the price of a resale is divided.
//!
//! Two parties other than the seller take a share of every resale: the
//! marketplace, at its base rate, and the vendor who minted the record, at the
//! record's own rate. Each share is a whole percentage of the price, rounded
//! down. The seller gets what is left.

use vstd::prelude::*;

verus! {

/// The share of `price` that a rate of `rate` percent takes, rounded down.
pub open spec fn royalty(price: u64, rate: u8) -> int {
    (price * rate) / 100
}

/// A resale price, divided among the three parties that are paid.
#[derive(Clone, Copy, Debug, PartialEq, Eq, Structural)]
pub struct RoyaltySplit {
    /// What the marketplace receives.
    pub base_royalty: u64,
    /// What the vendor who minted the record receives.
    pub vendor_royalty: u64,
    /// What the seller receives.
    pub net_to_seller: u64,
}

impl RoyaltySplit {
    /// Both royalties together.
    pub open spec fn total_royalty(self) -> int {
        self.base_royalty + self.vendor_royalty
    }

    /// Everything the buyer pays.
    pub open spec fn total(self) -> int {
        self.base_royalty + self.vendor_royalty + self.net_to_seller
    }
}

/// The division of `new_price` at the two rates, or `None` where the two
/// royalties together come to more than the price.
pub open spec fn royalty_split(new_price: u64, base_royalty_rate: u8, royalty_rate: u8) -> Option<
    RoyaltySplit,
> {
    let base = royalty(new_price, base_royalty_rate);
    let vendor = royalty(new_price, royalty_rate);
    if base + vendor <= new_price {
        Some(
            RoyaltySplit {
                base_royalty: base as u64,
                vendor_royalty: vendor as u64,
                net_to_seller: (new_price - (base + vendor)) as u64,
            },
        )
    } else {
        None
    }
}

/// A royalty is never negative and, at any rate a byte can hold, stays well
/// inside 128 bits.
proof fn lemma_royalty_bounds(price: u64, rate: u8)
    ensures
        0 <= price * rate <= 255 * u64::MAX,
        0 <= royalty(price, rate) <= price * rate,
{
    assert(0 <= price * rate <= 255 * u64::MAX) by (nonlinear_arith)
        requires
            0 <= price <= u64::MAX,
            0 <= rate <= 255,
    ;
}

/// Divides `new_price` among marketplace, vendor and seller.
///
/// Rates are whole percentages. Nothing here asks them to be at most 100:
/// what is refused is a price that the two royalties together exceed.
pub fn split_royalties(new_price: u64, base_royalty_rate: u8, royalty_rate: u8) -> (split: Option<
    RoyaltySplit,
>)
    ensures
        split == royalty_split(new_price, base_royalty_rate, royalty_rate),
{
    proof {
        lemma_royalty_bounds(new_price, base_royalty_rate);
        lemma_royalty_bounds(new_price, royalty_rate);
    }
    let price: u128 = new_price as u128;
    let base: u128 = price * (base_royalty_rate as u128) / 100;
    let vendor: u128 = price * (royalty_rate as u128) / 100;
    let total: u128 = base + vendor;
    if total <= price {
        Some(
            RoyaltySplit {
                base_royalty: base as u64,
                vendor_royalty: vendor as u64,
                net_to_seller: (price - total) as u64,
            },
        )
    } else {
        None
    }
}

/// Whenever a price can be divided, the three parts add up to the price, and
/// each royalty is the rounded-down percentage.
pub proof fn lemma_split_adds_up(new_price: u64, base_royalty_rate: u8, royalty_rate: u8)
    requires
        royalty_split(new_price, base_royalty_rate, royalty_rate) is Some,
    ensures
        ({
            let split = royalty_split(new_price, base_royalty_rate, royalty_rate)->0;
            &&& split.total() == new_price
            &&& split.base_royalty == royalty(new_price, base_royalty_rate)
            &&& split.vendor_royalty == royalty(new_price, royalty_rate)
            &&& split.net_to_seller == new_price - split.total_royalty()
        }),
{
    lemma_royalty_bounds(new_price, base_royalty_rate);
    lemma_royalty_bounds(new_price, royalty_rate);
}

/// With both rates between 0 and 100 and their sum at most 100, every price
/// can be divided, the three parts add up to the price exactly, and rounding
/// each royalty down costs the two royalty takers less than two units
/// together.
pub proof fn lemma_split_is_exact(new_price: u64, base_royalty_rate: u8, royalty_rate: u8)
    requires
        base_royalty_rate <= 100,
        royalty_rate <= 100,
        base_royalty_rate + royalty_rate <= 100,
    ensures
        royalty_split(new_price, base_royalty_rate, royalty_rate) is Some,
        ({
            let split = royalty_split(new_price, base_royalty_rate, royalty_rate)->0;
            &&& split.base_royalty + split.vendor_royalty + split.net_to_seller == new_price
            &&& split.base_royalty == royalty(new_price, base_royalty_rate)
            &&& split.vendor_royalty == royalty(new_price, royalty_rate)
            &&& 100 * split.total_royalty() <= new_price * (base_royalty_rate + royalty_rate)
            &&& new_price * (base_royalty_rate + royalty_rate) < 100 * (split.total_royalty() + 2)
        }),
{
    let p = new_price as int;
    let b = base_royalty_rate as int;
    let v = royalty_rate as int;
    lemma_royalty_bounds(new_price, base_royalty_rate);
    lemma_royalty_bounds(new_price, royalty_rate);
    assert(p * (b + v) == p * b + p * v) by (nonlinear_arith);
    assert(p * (b + v) <= p * 100) by (nonlinear_arith)
        requires
            0 <= p,
            b + v <= 100,
    ;
    // Each quotient is within one unit below the exact share.
    assert(100 * ((p * b) / 100) <= p * b < 100 * ((p * b) / 100) + 100);
    assert(100 * ((p * v) / 100) <= p * v < 100 * ((p * v) / 100) + 100);
}

} // verus!
