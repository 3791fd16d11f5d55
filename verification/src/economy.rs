//! Snapshots of the world that the factory reads and never writes.

use vstd::prelude::*;

verus! {

/// One hundred percent, in hundredths of a percent.
pub const FULL_PERCENT: u32 = 10_000;

/// A kind of good. Two products are the same when all their fields agree.
#[derive(Clone, Copy, Debug, PartialEq, Eq, Structural)]
pub struct Product {
    pub id: u32,
    pub industry: u32,
    /// What one unit costs to make, energy not counted.
    pub unit_cost_excl_energy: u64,
    /// Energy that making one unit takes.
    pub energy_per_unit: u32,
    /// How many units make up one percent of the market's demand.
    pub unit_per_percent: u32,
}

/// What the market wants of one product.
#[derive(Clone, Copy, Debug, PartialEq, Eq, Structural)]
pub struct ProductDemand {
    pub product: Product,
    /// Share of the market, in hundredths of a percent.
    pub percent: u32,
    /// The same demand as a count of units.
    pub units: u32,
}

/// Finished goods of one product, waiting to be sold.
#[derive(Clone, Copy, Debug, PartialEq, Eq, Structural)]
pub struct ProductStock {
    pub product: Product,
    pub units: u32,
    pub unit_production_cost: u64,
}

/// The factory's own state as its owner last published it.
#[derive(Clone, Debug)]
pub struct FactoryState {
    pub id: u32,
    pub balance: i64,
    pub available_energy: u32,
    pub product_stocks: Vec<ProductStock>,
    pub product_portfolio: Vec<Product>,
    pub industry: u32,
    pub is_bankrupt: bool,
    pub is_awaiting_solarpanels: bool,
    /// Number of solar panels owned.
    pub solarpanels: u64,
}

/// The demands of the whole economy, refreshed by its owner every tick.
#[derive(Clone, Debug)]
pub struct EconomyState {
    pub product_demands: Vec<ProductDemand>,
}

/// Whether some stock entry holds `product`.
pub open spec fn stock_has_product(stocks: Seq<ProductStock>, product: Product) -> bool {
    exists|i: int| 0 <= i < stocks.len() && (#[trigger] stocks[i]).product == product
}

/// Whether some demand for `product` has a share above `threshold`.
pub open spec fn demand_exceeds(demands: Seq<ProductDemand>, product: Product, threshold: u32) -> bool {
    exists|i: int|
        0 <= i < demands.len() && (#[trigger] demands[i]).product == product
            && demands[i].percent > threshold
}

} // verus!
