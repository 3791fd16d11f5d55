use factory_agent::dispatch::ControlOutcome;
use factory_agent::economy::{EconomyState, FactoryState, Product, ProductDemand, ProductStock};
use factory_agent::factory::Factory;
use factory_agent::signals::{
    BroadcastSignal, ControlSignal, EnergyOffer, EnergyReceipt, FactorySignal, HubSignal,
    ProductionReceipt, TimerEvent,
};

fn widget() -> Product {
    Product { id: 1, industry: 7, unit_cost_excl_energy: 10, energy_per_unit: 2, unit_per_percent: 0 }
}

fn gadget() -> Product {
    Product { id: 2, industry: 7, unit_cost_excl_energy: 10, energy_per_unit: 0, unit_per_percent: 0 }
}

fn widget_demand() -> ProductDemand {
    ProductDemand { product: widget(), percent: 2_500, units: 50 }
}

// A factory that can make widgets, has gadgets in stock, and money for solar panels.
fn world(balance: i64) -> (FactoryState, EconomyState) {
    let state = FactoryState {
        id: 3,
        balance,
        available_energy: 0,
        product_stocks: vec![ProductStock { product: gadget(), units: 5, unit_production_cost: 100 }],
        product_portfolio: vec![widget(), gadget()],
        industry: 7,
        is_bankrupt: false,
        is_awaiting_solarpanels: false,
        solarpanels: 0,
    };
    let economy = EconomyState {
        product_demands: vec![widget_demand(), ProductDemand { product: gadget(), percent: 100, units: 10 }],
    };
    (state, economy)
}

fn tick(minute: bool, hour: bool, day: bool) -> ControlSignal {
    ControlSignal::Timer { event: TimerEvent { at_least_minute: minute, at_least_hour: hour, at_least_day: day } }
}

fn energy_demand() -> FactorySignal {
    FactorySignal::EnergyDemand { factory_id: 3, energy_needed: 100 }
}

fn selling() -> FactorySignal {
    FactorySignal::SellingProduct { stock_index: 0, unit_price: 120 }
}

fn quiet(outcome: &ControlOutcome) -> bool {
    outcome.signals.is_empty() && !outcome.bankrupt_notice && !outcome.quit
}

#[test]
fn fifth_minute_looks_at_production() {
    let (s, e) = world(1_000);
    let mut f = Factory::new(1_000, 100, 10);
    let outcome = f.on_control_signal(&s, &e, 25, &tick(true, false, false));
    assert_eq!(outcome.signals, vec![energy_demand()]);
    assert!(!outcome.quit && !outcome.bankrupt_notice);
    assert_eq!(f.production_runs().len(), 1);
}

#[test]
fn sixth_minute_looks_at_sales() {
    let (s, e) = world(1_000);
    let mut f = Factory::new(1_000, 100, 10);
    let outcome = f.on_control_signal(&s, &e, 12, &tick(true, false, false));
    assert_eq!(outcome.signals, vec![selling()]);
    assert!(f.production_runs().is_empty());
}

#[test]
fn thirtieth_minute_looks_at_both() {
    let (s, e) = world(1_000);
    let mut f = Factory::new(1_000, 100, 10);
    let outcome = f.on_control_signal(&s, &e, 30, &tick(true, false, false));
    assert_eq!(outcome.signals, vec![energy_demand(), selling()]);
    let mut g = Factory::new(1_000, 100, 10);
    let outcome = g.on_control_signal(&s, &e, 0, &tick(true, true, false));
    assert_eq!(outcome.signals, vec![energy_demand(), selling()]);
}

#[test]
fn other_minutes_and_shorter_ticks_do_nothing() {
    let (s, e) = world(1_000);
    let mut f = Factory::new(1_000, 100, 10);
    assert!(quiet(&f.on_control_signal(&s, &e, 7, &tick(true, false, false))));
    assert!(quiet(&f.on_control_signal(&s, &e, 30, &tick(false, false, false))));
    assert!(quiet(&f.on_control_signal(&s, &e, 30, &ControlSignal::Other)));
    assert!(f.production_runs().is_empty());
}

#[test]
fn hour_looks_at_solar_panels() {
    let (s, e) = world(50_250);
    let mut f = Factory::new(1_000, 100, 10);
    let outcome = f.on_control_signal(&s, &e, 7, &tick(true, true, false));
    assert_eq!(outcome.signals, vec![FactorySignal::BuyingSolarPanels { amount: 2 }]);
    let outcome = f.on_control_signal(&s, &e, 7, &tick(false, true, false));
    assert_eq!(outcome.signals, vec![FactorySignal::BuyingSolarPanels { amount: 2 }]);
}

#[test]
fn bankrupt_factory_only_gives_notice_once_a_day() {
    let (mut s, e) = world(50_250);
    s.is_bankrupt = true;
    let mut f = Factory::new(1_000, 100, 10);
    let outcome = f.on_control_signal(&s, &e, 30, &tick(true, true, false));
    assert!(quiet(&outcome));
    let outcome = f.on_control_signal(&s, &e, 30, &tick(true, true, true));
    assert!(outcome.signals.is_empty());
    assert!(outcome.bankrupt_notice);
    assert!(!outcome.quit);
    assert!(f.production_runs().is_empty());
}

#[test]
fn speed_change_sets_the_pause() {
    let (s, e) = world(1_000);
    let mut f = Factory::new(1_000, 100, 10);
    let outcome = f.on_control_signal(&s, &e, 30, &ControlSignal::SpeedChange { tick_duration: 100 });
    assert!(quiet(&outcome));
    assert_eq!(f.sleeptime(), 49_900);
}

#[test]
fn quit_leaves_the_loop() {
    let (s, e) = world(1_000);
    let mut f = Factory::new(1_000, 100, 10);
    let outcome = f.on_control_signal(&s, &e, 30, &ControlSignal::Quit);
    assert!(outcome.quit);
    assert!(outcome.signals.is_empty());
    assert!(f.production_runs().is_empty());
}

#[test]
fn hub_signals_reach_their_decisions() {
    let (s, e) = world(1_000);
    let mut f = Factory::new(1_000, 100, 10);
    let offer = EnergyOffer { price_per_unit: 1, units: 100 };
    // No run yet: the offer is ignored.
    assert!(f.on_hub_signal(&s, &e, &HubSignal::EnergyOffered { offer }).is_empty());
    // Renewable energy gives cause for a production pass.
    let signals = f.on_hub_signal(&s, &e, &HubSignal::RenewableEnergyProduced);
    assert_eq!(signals, vec![energy_demand()]);
    let signals = f.on_hub_signal(&s, &e, &HubSignal::EnergyOffered { offer });
    assert_eq!(signals, vec![FactorySignal::AcceptEnergyOffer { offer }]);
    assert_eq!(f.production_runs()[0].cost, 600);
    // A delivery is recorded, and starts the run once the energy is at hand.
    let receipt = EnergyReceipt { units: 100 };
    assert!(f.on_hub_signal(&s, &e, &HubSignal::EnergyTransferred { receipt }).is_empty());
    assert_eq!(f.energy_receipts(), &vec![receipt]);
    let (mut supplied, _) = world(1_000);
    supplied.available_energy = 100;
    let signals = f.on_hub_signal(&supplied, &e, &HubSignal::EnergyTransferred { receipt });
    assert_eq!(
        signals,
        vec![FactorySignal::ProducingProductDemand { demand: widget_demand(), units: 50, unit_cost: 12 }]
    );
    assert_eq!(f.energy_receipts().len(), 2);
    assert_eq!(f.production_runs().len(), 1);
    // Completion takes the run out and offers the stock for sale.
    let done = HubSignal::ProductionComplete { receipt: ProductionReceipt { demand: widget_demand() } };
    assert_eq!(f.on_hub_signal(&s, &e, &done), vec![selling()]);
    assert!(f.production_runs().is_empty());
    assert!(f.on_hub_signal(&s, &e, &done).is_empty());
}

#[test]
fn broadcast_tells_foreign_energy_demands_apart() {
    let (s, _) = world(1_000);
    let f = Factory::new(1_000, 100, 10);
    assert!(f.on_broadcast(&s, &BroadcastSignal::EnergyDemand { factory_id: 4, energy_needed: 10 }));
    assert!(!f.on_broadcast(&s, &BroadcastSignal::EnergyDemand { factory_id: 3, energy_needed: 10 }));
    assert!(!f.on_broadcast(&s, &BroadcastSignal::Other));
}
