//! The factory: its ledger, its settings, and the decisions it takes.

use vstd::prelude::*;
use crate::decisions::{
    Pass, budget_units, commit_signal, is_candidate, last_ready_run, ledger_after_offer,
    lemma_aborted_pass_stays, lemma_planned_run_exact, new_run_signal, offer_answer,
    panels_to_buy, planned_run, producing_signal, production_pass, rolled, run_ready,
    sales_signals, sleeptime_micros, tick_in_range,
};
use crate::economy::{
    EconomyState, FULL_PERCENT, FactoryState, Product, ProductDemand, demand_exceeds,
    stock_has_product,
};
use crate::ledger::{
    ProductionRun, first_run_of_demand, first_run_of_product, ledger_has_demand,
    ledger_has_product, ledger_wf, lemma_push_keeps_wf, lemma_recost_keeps_wf,
    lemma_remove_keeps_wf,
};
use crate::signals::{EnergyOffer, EnergyReceipt, FactorySignal, ProductionReceipt};

verus! {

/// How many energy receipts the factory keeps.
pub const RECEIPT_HISTORY: usize = 100;

/// Demand share above which stock is offered for sale, in hundredths of a percent.
pub const DEFAULT_SELL_THRESHOLD: u32 = 0;

/// Margin added to the production cost when selling, in hundredths of a percent.
pub const DEFAULT_PROFIT_MARGIN: u32 = 2_000;

/// Balance that buying solar panels never touches.
pub const DEFAULT_RESERVE: u64 = 50_000;

pub struct Factory {
    production_runs: Vec<ProductionRun>,
    last_hundred_energy_purchases: Vec<EnergyReceipt>,
    product_demand_sell_threshold: u32,
    profit_margin: u32,
    sleeptime: u64,
    reserve: u64,
    solar_panel_price: u64,
    max_solar_panels: u64,
}

/// What a factory is, to its contracts.
pub struct FactoryView {
    pub ledger: Seq<ProductionRun>,
    pub receipts: Seq<EnergyReceipt>,
    pub sell_threshold: u32,
    pub profit_margin: u32,
    /// Pause between two polls, in microseconds.
    pub sleeptime: u64,
    pub reserve: u64,
    pub panel_price: u64,
    pub max_panels: u64,
}

impl View for Factory {
    type V = FactoryView;

    closed spec fn view(&self) -> FactoryView {
        FactoryView {
            ledger: self.production_runs@,
            receipts: self.last_hundred_energy_purchases@,
            sell_threshold: self.product_demand_sell_threshold,
            profit_margin: self.profit_margin,
            sleeptime: self.sleeptime,
            reserve: self.reserve,
            panel_price: self.solar_panel_price,
            max_panels: self.max_solar_panels,
        }
    }
}

/// The signal of `answer` as a sequence: empty where there is none.
pub open spec fn as_signals(answer: Option<FactorySignal>) -> Seq<FactorySignal> {
    match answer {
        Some(signal) => seq![signal],
        None => Seq::empty(),
    }
}

/// What `Factory::energy_received` owes: the signal that starts the last
/// run that can start, or nothing where none can.
pub open spec fn energy_received_answer(
    ledger: Seq<ProductionRun>,
    balance: int,
    available_energy: int,
    answer: Option<FactorySignal>,
) -> bool {
    match answer {
        Some(signal) => exists|i: int| #[trigger]
            last_ready_run(ledger, balance, available_energy, i) && signal == commit_signal(
                ledger[i],
            ),
        None => forall|i: int|
            0 <= i < ledger.len() ==> !run_ready(#[trigger] ledger[i], balance, available_energy),
    }
}

/// What `Factory::production_complete` owes: nothing changes and nothing is
/// said where no run answers the demand; else the first such run leaves the
/// ledger and the stock is offered for sale.
pub open spec fn production_complete_answer(
    before: FactoryView,
    after: FactoryView,
    state: FactoryState,
    economy: EconomyState,
    demand: ProductDemand,
    signals: Seq<FactorySignal>,
) -> bool {
    &&& !ledger_has_demand(before.ledger, demand) ==> after == before && signals.len() == 0
    &&& forall|i: int| #[trigger]
        first_run_of_demand(before.ledger, demand, i) ==> {
            &&& after == FactoryView { ledger: before.ledger.remove(i), ..before }
            &&& signals == sales_signals(
                state.product_stocks@,
                economy.product_demands@,
                before.sell_threshold,
                before.profit_margin,
            )
        }
}

/// What `Factory::maybe_buy_renewables` owes.
pub open spec fn renewables_answer(view: FactoryView, state: FactoryState) -> Option<FactorySignal> {
    let amount = panels_to_buy(
        state.balance as int,
        state.is_awaiting_solarpanels,
        state.solarpanels as int,
        view.reserve as int,
        view.panel_price as int,
        view.max_panels as int,
    );
    if amount > 0 {
        Some(FactorySignal::BuyingSolarPanels { amount: amount as u64 })
    } else {
        None
    }
}

impl Factory {
    /// What holds of every factory: the ledger is well formed, and the
    /// receipt history is within its limit.
    pub open spec fn wf(&self) -> bool {
        &&& ledger_wf(self@.ledger)
        &&& self@.receipts.len() <= RECEIPT_HISTORY
    }

    /// A factory with an empty ledger and the default settings, pacing
    /// itself to ticks of `tick_duration` milliseconds.
    pub fn new(tick_duration: u64, solar_panel_price: u64, max_solar_panels: u64) -> (factory: Factory)
        requires
            tick_in_range(tick_duration),
        ensures
            factory.wf(),
            factory@ == (FactoryView {
                ledger: Seq::empty(),
                receipts: Seq::empty(),
                sell_threshold: DEFAULT_SELL_THRESHOLD,
                profit_margin: DEFAULT_PROFIT_MARGIN,
                sleeptime: sleeptime_micros(tick_duration as int) as u64,
                reserve: DEFAULT_RESERVE,
                panel_price: solar_panel_price,
                max_panels: max_solar_panels,
            }),
    {
        Factory {
            production_runs: Vec::new(),
            last_hundred_energy_purchases: Vec::new(),
            product_demand_sell_threshold: DEFAULT_SELL_THRESHOLD,
            profit_margin: DEFAULT_PROFIT_MARGIN,
            sleeptime: Self::recalculate_sleeptime(tick_duration),
            reserve: DEFAULT_RESERVE,
            solar_panel_price,
            max_solar_panels,
        }
    }

    /// Whether a pause can be counted for ticks of `tick_duration`
    /// milliseconds.
    pub fn tick_duration_in_range(tick_duration: u64) -> (in_range: bool)
        ensures
            in_range == tick_in_range(tick_duration),
    {
        tick_duration >= 2 && tick_duration / 2 <= u64::MAX / 1000
    }

    /// The pause between two polls, in microseconds: half a tick of
    /// `tick_duration` milliseconds, less a margin of 100 microseconds.
    pub fn recalculate_sleeptime(tick_duration: u64) -> (micros: u64)
        requires
            tick_in_range(tick_duration),
        ensures
            micros == sleeptime_micros(tick_duration as int),
    {
        (tick_duration / 2) * 1000 - 100
    }

    /// Paces the factory to ticks of `tick_duration` milliseconds.
    pub fn change_speed(&mut self, tick_duration: u64)
        requires
            tick_in_range(tick_duration),
        ensures
            final(self)@ == (FactoryView {
                sleeptime: sleeptime_micros(tick_duration as int) as u64,
                ..old(self)@
            }),
    {
        self.sleeptime = Self::recalculate_sleeptime(tick_duration);
    }

    /// The runs under way, oldest first.
    pub fn production_runs(&self) -> (runs: &Vec<ProductionRun>)
        ensures
            runs@ == self@.ledger,
    {
        &self.production_runs
    }

    /// The energy receipts kept, oldest first.
    pub fn energy_receipts(&self) -> (receipts: &Vec<EnergyReceipt>)
        ensures
            receipts@ == self@.receipts,
    {
        &self.last_hundred_energy_purchases
    }

    /// The pause between two polls, in microseconds.
    pub fn sleeptime(&self) -> (micros: u64)
        ensures
            micros == self@.sleeptime,
    {
        self.sleeptime
    }

    /// The first place in the ledger whose run makes `product`.
    pub fn product_in_prod_run(&self, product: &Product) -> (place: Option<usize>)
        ensures
            match place {
                Some(i) => first_run_of_product(self@.ledger, *product, i as int),
                None => !ledger_has_product(self@.ledger, *product),
            },
    {
        let mut i: usize = 0;
        while i < self.production_runs.len()
            invariant
                i <= self.production_runs@.len(),
                forall|j: int|
                    0 <= j < i ==> (#[trigger] self.production_runs@[j]).demand.product
                        != *product,
            decreases self.production_runs@.len() - i,
        {
            if self.production_runs[i].demand.product == *product {
                return Some(i);
            }
            i += 1;
        }
        None
    }

    /// The first place in the stock that holds `product`.
    pub fn product_in_stock(state: &FactoryState, product: &Product) -> (place: Option<usize>)
        ensures
            match place {
                Some(i) => {
                    &&& i < state.product_stocks@.len()
                    &&& state.product_stocks@[i as int].product == *product
                    &&& forall|j: int|
                        0 <= j < i ==> (#[trigger] state.product_stocks@[j]).product != *product
                },
                None => !stock_has_product(state.product_stocks@, *product),
            },
    {
        let mut i: usize = 0;
        while i < state.product_stocks.len()
            invariant
                i <= state.product_stocks@.len(),
                forall|j: int|
                    0 <= j < i ==> (#[trigger] state.product_stocks@[j]).product != *product,
            decreases state.product_stocks@.len() - i,
        {
            if state.product_stocks[i].product == *product {
                return Some(i);
            }
            i += 1;
        }
        None
    }

    /// Whether the factory's portfolio holds `product`.
    pub fn product_in_portfolio(state: &FactoryState, product: &Product) -> (found: bool)
        ensures
            found == state.product_portfolio@.contains(*product),
    {
        let mut i: usize = 0;
        while i < state.product_portfolio.len()
            invariant
                i <= state.product_portfolio@.len(),
                forall|j: int| 0 <= j < i ==> state.product_portfolio@[j] != *product,
            decreases state.product_portfolio@.len() - i,
        {
            if state.product_portfolio[i] == *product {
                return true;
            }
            i += 1;
        }
        false
    }

    /// Whether the economy demands `product` with a share above `threshold`.
    pub fn product_in_demand(economy: &EconomyState, product: &Product, threshold: u32) -> (found:
        bool)
        ensures
            found == demand_exceeds(economy.product_demands@, *product, threshold),
    {
        let mut i: usize = 0;
        while i < economy.product_demands.len()
            invariant
                i <= economy.product_demands@.len(),
                forall|j: int|
                    0 <= j < i ==> !((#[trigger] economy.product_demands@[j]).product == *product
                        && economy.product_demands@[j].percent > threshold),
            decreases economy.product_demands@.len() - i,
        {
            let demand = &economy.product_demands[i];
            if demand.product == *product && demand.percent > threshold {
                return true;
            }
            i += 1;
        }
        false
    }

    /// The signal that tells the hub to produce `units` for `demand` at
    /// `unit_cost` each. The run stays in the ledger until the hub reports
    /// the production complete.
    pub fn produce_product_demand(demand: ProductDemand, units: u32, unit_cost: u64) -> (signal:
        FactorySignal)
        ensures
            signal == producing_signal(demand, units, unit_cost),
    {
        FactorySignal::ProducingProductDemand { demand, units, unit_cost }
    }

    /// Whether the factory may start a run for `demand`.
    pub fn demand_is_candidate(&self, state: &FactoryState, demand: &ProductDemand) -> (candidate: bool)
        ensures
            candidate == is_candidate(*state, self@.ledger, *demand),
    {
        if demand.product.industry != state.industry {
            return false;
        }
        if !Self::product_in_portfolio(state, &demand.product) {
            return false;
        }
        match self.product_in_prod_run(&demand.product) {
            Some(_) => false,
            None => match Self::product_in_stock(state, &demand.product) {
                Some(_) => false,
                None => true,
            },
        }
    }

    /// The run for a candidate that the balance pays one unit of, unless the
    /// units it pays for are no more than one percent of the market.
    fn plan_run(state: &FactoryState, demand: &ProductDemand) -> (run: Option<ProductionRun>)
        requires
            state.balance >= demand.product.unit_cost_excl_energy,
        ensures
            run == (if budget_units(state.balance as int, *demand) <= demand.product.unit_per_percent {
                None
            } else {
                Some(planned_run(*state, *demand))
            }),
    {
        proof {
            lemma_planned_run_exact(*state, *demand);
        }
        let unit_cost: u64 = demand.product.unit_cost_excl_energy;
        let units: u32 = if unit_cost == 0 {
            demand.units
        } else {
            let paid_for: u128 = (3 * (state.balance as u128)) / (4 * (unit_cost as u128));
            if paid_for >= demand.units as u128 {
                demand.units
            } else {
                paid_for as u32
            }
        };
        if units <= demand.product.unit_per_percent {
            return None;
        }
        let cost: u64 = ((units as u128) * (unit_cost as u128)) as u64;
        let lacking: i128 = demand.product.energy_per_unit as i128 - state.available_energy as i128;
        let energy_needed: i128 = (units as i128) * lacking;
        Some(ProductionRun { demand: *demand, units, cost, energy_needed })
    }

    /// The signal that goes with a new run.
    fn announce_run(factory_id: u32, run: &ProductionRun) -> (signal: FactorySignal)
        ensures
            signal == new_run_signal(factory_id, *run),
    {
        if run.energy_needed > 0 {
            FactorySignal::EnergyDemand { factory_id, energy_needed: run.energy_needed as u64 }
        } else {
            Self::produce_product_demand(run.demand, run.units, run.demand.product.unit_cost_excl_energy)
        }
    }

    /// One pass over the economy's demands, in order. Each candidate that
    /// the balance pays for in more than negligible number gets a run and
    /// one signal: a request for the energy it lacks, or the start of
    /// production. A candidate of which the balance does not pay one unit
    /// ends the pass with a declaration of bankruptcy.
    pub fn maybe_produce_goods(&mut self, state: &FactoryState, economy: &EconomyState) -> (signals: Vec<
        FactorySignal,
    >)
        requires
            old(self).wf(),
        ensures
            final(self).wf(),
            final(self)@ == (FactoryView {
                ledger: production_pass(*state, economy.product_demands@, old(self)@.ledger).ledger,
                ..old(self)@
            }),
            signals@ == production_pass(*state, economy.product_demands@, old(self)@.ledger).signals,
    {
        let ghost start = self@;
        let ghost demands = economy.product_demands@;
        let mut signals: Vec<FactorySignal> = Vec::new();
        let mut i: usize = 0;
        while i < economy.product_demands.len()
            invariant
                i <= demands.len(),
                demands == economy.product_demands@,
                start == old(self)@,
                self.wf(),
                self@ == (FactoryView { ledger: self@.ledger, ..start }),
                production_pass(*state, demands.take(i as int), start.ledger) == (Pass {
                    ledger: self@.ledger,
                    signals: signals@,
                    aborted: false,
                }),
            decreases demands.len() - i,
        {
            let demand = economy.product_demands[i];
            proof {
                assert(demands.take(i + 1).drop_last() =~= demands.take(i as int));
                assert(demands.take(i + 1).last() == demand);
            }
            if self.demand_is_candidate(state, &demand) {
                if (state.balance as i128) < (demand.product.unit_cost_excl_energy as i128) {
                    signals.push(FactorySignal::DeclaringBankruptcy);
                    proof {
                        lemma_aborted_pass_stays(*state, demands, start.ledger, i + 1);
                    }
                    return signals;
                }
                match Self::plan_run(state, &demand) {
                    Some(run) => {
                        proof {
                            lemma_planned_run_exact(*state, demand);
                            lemma_push_keeps_wf(self@.ledger, run);
                        }
                        self.production_runs.push(run);
                        signals.push(Self::announce_run(state.id, &run));
                    },
                    None => {},
                }
            }
            i += 1;
        }
        proof {
            assert(demands.take(i as int) =~= demands);
        }
        signals
    }

    /// Answers a power plant's offer on behalf of the newest run, whichever
    /// run asked for the energy. The offer is taken when the balance covers
    /// the run's cost and the energy with money to spare; the run's cost
    /// then grows by the price of the energy. Without a run the offer is
    /// ignored.
    pub fn evaluate_pp_energy_offer(&mut self, state: &FactoryState, offer: &EnergyOffer) -> (answer: Option<
        FactorySignal,
    >)
        requires
            old(self).wf(),
        ensures
            final(self).wf(),
            final(self)@ == (FactoryView {
                ledger: ledger_after_offer(old(self)@.ledger, state.balance as int, *offer),
                ..old(self)@
            }),
            answer == offer_answer(old(self)@.ledger, state.balance as int, *offer),
            old(self)@.ledger.len() == 0 ==> final(self)@ == old(self)@ && answer.is_none(),
    {
        let n = self.production_runs.len();
        if n == 0 {
            return None;
        }
        let run = self.production_runs[n - 1];
        assert(offer.price_per_unit * offer.units <= 0xffff_ffff_ffff_ffff * 0xffff_ffff)
            by (nonlinear_arith)
            requires
                0 <= offer.price_per_unit <= 0xffff_ffff_ffff_ffff,
                0 <= offer.units <= 0xffff_ffff,
        ;
        let price: u128 = (offer.price_per_unit as u128) * (offer.units as u128);
        let total: u128 = run.cost as u128 + price;
        if state.balance > 0 && (state.balance as u128) > total {
            proof {
                lemma_recost_keeps_wf(self@.ledger, n - 1, total as u64);
            }
            self.production_runs.set(n - 1, ProductionRun { cost: total as u64, ..run });
            Some(FactorySignal::AcceptEnergyOffer { offer: *offer })
        } else {
            Some(FactorySignal::RejectEnergyOffer { offer: *offer })
        }
    }

    /// Looks, newest first, for a run whose missing energy is now at hand
    /// and whose cost the balance covers, and starts that one run: for its
    /// units, never more than its demand's, at its cost per unit.
    pub fn energy_received(&self, state: &FactoryState) -> (answer: Option<FactorySignal>)
        requires
            self.wf(),
        ensures
            energy_received_answer(
                self@.ledger,
                state.balance as int,
                state.available_energy as int,
                answer,
            ),
    {
        let mut i: usize = self.production_runs.len();
        while i > 0
            invariant
                self.wf(),
                i <= self.production_runs@.len(),
                forall|j: int|
                    i <= j < self.production_runs@.len() ==> !run_ready(
                        #[trigger] self.production_runs@[j],
                        state.balance as int,
                        state.available_energy as int,
                    ),
            decreases i,
        {
            i -= 1;
            let run = self.production_runs[i];
            if run.energy_needed <= state.available_energy as i128 && state.balance >= 0
                && run.cost <= state.balance as u64 {
                let unit_cost: u64 = run.cost / (run.units as u64);
                let units: u32 = if run.units <= run.demand.units {
                    run.units
                } else {
                    run.demand.units
                };
                assert(last_ready_run(
                    self@.ledger,
                    state.balance as int,
                    state.available_energy as int,
                    i as int,
                ));
                return Some(Self::produce_product_demand(run.demand, units, unit_cost));
            }
        }
        None
    }

    /// One selling signal for each stock entry whose product the economy
    /// demands with a share above the sell threshold: the entry's place in
    /// the stock, and its unit cost with the profit margin added.
    pub fn maybe_sell_goods(&self, state: &FactoryState, economy: &EconomyState) -> (signals: Vec<
        FactorySignal,
    >)
        ensures
            signals@ == sales_signals(
                state.product_stocks@,
                economy.product_demands@,
                self@.sell_threshold,
                self@.profit_margin,
            ),
    {
        let ghost stocks = state.product_stocks@;
        let mut signals: Vec<FactorySignal> = Vec::new();
        let mut i: usize = 0;
        while i < state.product_stocks.len()
            invariant
                i <= stocks.len(),
                stocks == state.product_stocks@,
                signals@ == sales_signals(
                    stocks.take(i as int),
                    economy.product_demands@,
                    self@.sell_threshold,
                    self@.profit_margin,
                ),
            decreases stocks.len() - i,
        {
            let stock = &state.product_stocks[i];
            proof {
                assert(stocks.take(i + 1).drop_last() =~= stocks.take(i as int));
                assert(stocks.take(i + 1).last() == *stock);
            }
            if Self::product_in_demand(economy, &stock.product, self.product_demand_sell_threshold) {
                let cost: u64 = stock.unit_production_cost;
                assert(cost * self.profit_margin <= 0xffff_ffff_ffff_ffff * 0xffff_ffff)
                    by (nonlinear_arith)
                    requires
                        0 <= cost <= 0xffff_ffff_ffff_ffff,
                        0 <= self.profit_margin <= 0xffff_ffff,
                ;
                let margin: u128 = ((cost as u128) * (self.profit_margin as u128)) / (FULL_PERCENT as u128);
                let unit_price: u128 = cost as u128 + margin;
                signals.push(FactorySignal::SellingProduct { stock_index: i, unit_price });
            }
            i += 1;
        }
        proof {
            assert(stocks.take(i as int) =~= stocks);
        }
        signals
    }

    /// Takes the first run that answers the receipt's demand out of the
    /// ledger and offers the stock for sale. A receipt that no run answers
    /// changes nothing and says nothing.
    pub fn production_complete(
        &mut self,
        state: &FactoryState,
        economy: &EconomyState,
        receipt: &ProductionReceipt,
    ) -> (signals: Vec<FactorySignal>)
        requires
            old(self).wf(),
        ensures
            final(self).wf(),
            production_complete_answer(
                old(self)@,
                final(self)@,
                *state,
                *economy,
                receipt.demand,
                signals@,
            ),
    {
        let mut i: usize = 0;
        while i < self.production_runs.len()
            invariant
                i <= self.production_runs@.len(),
                *self == *old(self),
                old(self).wf(),
                forall|j: int|
                    0 <= j < i ==> (#[trigger] self.production_runs@[j]).demand != receipt.demand,
            decreases self.production_runs@.len() - i,
        {
            if self.production_runs[i].demand == receipt.demand {
                proof {
                    lemma_remove_keeps_wf(self@.ledger, i as int);
                }
                self.production_runs.remove(i);
                return self.maybe_sell_goods(state, economy);
            }
            i += 1;
        }
        Vec::new()
    }

    /// Orders solar panels where the balance is at least the reserve and no
    /// order is under way: as many as the balance above the reserve pays
    /// for, never more than the room left, and no order for none.
    pub fn maybe_buy_renewables(&self, state: &FactoryState) -> (answer: Option<FactorySignal>)
        ensures
            answer == renewables_answer(self@, *state),
    {
        if state.balance < 0 || (state.balance as u64) < self.reserve || state.is_awaiting_solarpanels {
            return None;
        }
        let budget: u64 = state.balance as u64 - self.reserve;
        let room: u64 = if state.solarpanels < self.max_solar_panels {
            self.max_solar_panels - state.solarpanels
        } else {
            0
        };
        let amount: u64 = if self.solar_panel_price == 0 {
            room
        } else {
            let paid_for: u64 = budget / self.solar_panel_price;
            if paid_for <= room {
                paid_for
            } else {
                room
            }
        };
        if amount > 0 {
            Some(FactorySignal::BuyingSolarPanels { amount })
        } else {
            None
        }
    }

    /// Adds a receipt to the history, which keeps the newest
    /// `RECEIPT_HISTORY` of them.
    pub fn record_energy_receipt(&mut self, receipt: EnergyReceipt)
        requires
            old(self).wf(),
        ensures
            final(self).wf(),
            final(self)@ == (FactoryView {
                receipts: rolled(old(self)@.receipts, receipt, RECEIPT_HISTORY as int),
                ..old(self)@
            }),
    {
        self.last_hundred_energy_purchases.push(receipt);
        if self.last_hundred_energy_purchases.len() > RECEIPT_HISTORY {
            self.last_hundred_energy_purchases.remove(0);
        }
        assert(self@.receipts =~= rolled(old(self)@.receipts, receipt, RECEIPT_HISTORY as int));
    }
}

} // verus!
