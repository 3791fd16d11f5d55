//! The messages that the factory receives and publishes.

use vstd::prelude::*;
use crate::economy::ProductDemand;

verus! {

/// A power plant's offer of energy.
#[derive(Clone, Copy, Debug, PartialEq, Eq, Structural)]
pub struct EnergyOffer {
    pub price_per_unit: u64,
    pub units: u32,
}

/// Record of one delivery of energy.
#[derive(Clone, Copy, Debug, PartialEq, Eq, Structural)]
pub struct EnergyReceipt {
    pub units: u32,
}

/// Notice that the production for a demand has finished.
#[derive(Clone, Copy, Debug, PartialEq, Eq, Structural)]
pub struct ProductionReceipt {
    pub demand: ProductDemand,
}

/// What the factory publishes.
#[derive(Clone, Copy, Debug, PartialEq, Eq, Structural)]
pub enum FactorySignal {
    DeclaringBankruptcy,
    EnergyDemand { factory_id: u32, energy_needed: u64 },
    AcceptEnergyOffer { offer: EnergyOffer },
    RejectEnergyOffer { offer: EnergyOffer },
    ProducingProductDemand { demand: ProductDemand, units: u32, unit_cost: u64 },
    /// The price is wide enough for any unit cost with any margin on it.
    SellingProduct { stock_index: usize, unit_price: u128 },
    BuyingSolarPanels { amount: u64 },
}

/// What reaches the factory on the channel addressed to it.
#[derive(Clone, Copy, Debug, PartialEq, Eq, Structural)]
pub enum HubSignal {
    EnergyOffered { offer: EnergyOffer },
    EnergyTransferred { receipt: EnergyReceipt },
    ProductionComplete { receipt: ProductionReceipt },
    RenewableEnergyProduced,
}

/// What reaches every agent on the shared channel.
#[derive(Clone, Copy, Debug, PartialEq, Eq, Structural)]
pub enum BroadcastSignal {
    EnergyDemand { factory_id: u32, energy_needed: u64 },
    Other,
}

/// How much simulated time a tick has crossed.
#[derive(Clone, Copy, Debug, PartialEq, Eq, Structural)]
pub struct TimerEvent {
    pub at_least_minute: bool,
    pub at_least_hour: bool,
    pub at_least_day: bool,
}

/// What reaches the factory on the control channel.
#[derive(Clone, Copy, Debug, PartialEq, Eq, Structural)]
pub enum ControlSignal {
    Timer { event: TimerEvent },
    /// The new length of a tick, in milliseconds.
    SpeedChange { tick_duration: u64 },
    Quit,
    Other,
}

} // verus!
