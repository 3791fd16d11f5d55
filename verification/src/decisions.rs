//! What the factory decides, as mathematics: every contract of the factory
//! is stated over the functions of this file.

use vstd::prelude::*;
use crate::economy::{
    FULL_PERCENT, FactoryState, Product, ProductDemand, ProductStock, demand_exceeds,
    stock_has_product,
};
use crate::ledger::{ProductionRun, ledger_has_product};
use crate::signals::{EnergyOffer, FactorySignal};

verus! {

/// The smaller of two integers.
pub open spec fn least(a: int, b: int) -> int {
    if a <= b { a } else { b }
}

// ---------------------------------------------------------------- production

/// A demand that the factory may start a run for: of its industry, in its
/// portfolio, with no run in the ledger and nothing in stock.
pub open spec fn is_candidate(
    state: FactoryState,
    ledger: Seq<ProductionRun>,
    demand: ProductDemand,
) -> bool {
    &&& demand.product.industry == state.industry
    &&& state.product_portfolio@.contains(demand.product)
    &&& !ledger_has_product(ledger, demand.product)
    &&& !stock_has_product(state.product_stocks@, demand.product)
}

/// Units that three quarters of the balance pay for, never more than the
/// demand. A product that costs nothing is limited by the demand alone.
pub open spec fn budget_units(balance: int, demand: ProductDemand) -> int {
    let unit_cost = demand.product.unit_cost_excl_energy as int;
    if unit_cost == 0 {
        demand.units as int
    } else {
        least((3 * balance) / (4 * unit_cost), demand.units as int)
    }
}

/// Energy that a run of `units` lacks: the units times what one unit takes
/// beyond the energy at hand.
pub open spec fn energy_shortfall(units: int, product: Product, available_energy: int) -> int {
    units * (product.energy_per_unit as int - available_energy)
}

/// The run that the factory starts for a candidate it can afford.
pub open spec fn planned_run(state: FactoryState, demand: ProductDemand) -> ProductionRun {
    let units = budget_units(state.balance as int, demand);
    ProductionRun {
        demand,
        units: units as u32,
        cost: (units * demand.product.unit_cost_excl_energy) as u64,
        energy_needed: energy_shortfall(units, demand.product, state.available_energy as int) as i128,
    }
}

/// What a candidate that the balance pays one unit of comes to: its run
/// holds the budgeted units, their cost and the energy they lack as they
/// are, nothing cut to fit the machine; the cost is within the balance.
pub proof fn lemma_planned_run_exact(state: FactoryState, demand: ProductDemand)
    requires
        state.balance >= demand.product.unit_cost_excl_energy,
    ensures
        0 <= budget_units(state.balance as int, demand) <= demand.units,
        planned_run(state, demand).units == budget_units(state.balance as int, demand),
        planned_run(state, demand).cost == budget_units(state.balance as int, demand)
            * demand.product.unit_cost_excl_energy,
        planned_run(state, demand).cost <= state.balance,
        planned_run(state, demand).energy_needed == energy_shortfall(
            budget_units(state.balance as int, demand),
            demand.product,
            state.available_energy as int,
        ),
        planned_run(state, demand).energy_needed <= u64::MAX,
{
    let b = state.balance as int;
    let c = demand.product.unit_cost_excl_energy as int;
    let units = budget_units(b, demand);
    if c > 0 {
        let q = (3 * b) / (4 * c);
        assert(0 <= q && q * (4 * c) <= 3 * b) by (nonlinear_arith)
            requires
                q == (3 * b) / (4 * c),
                c > 0,
                b >= 0,
        ;
        assert(0 <= units * c && 4 * (units * c) <= q * (4 * c)) by (nonlinear_arith)
            requires
                0 <= units <= q,
                c > 0,
        ;
    } else {
        assert(units * c == 0) by (nonlinear_arith)
            requires
                c == 0,
        ;
    }
    let d = demand.product.energy_per_unit as int - state.available_energy as int;
    assert(-0x1_0000_0000_0000_0000 <= units * d <= 0x1_0000_0000_0000_0000 - 1)
        by (nonlinear_arith)
        requires
            0 <= units <= 0xffff_ffff,
            -0xffff_ffff <= d <= 0xffff_ffff,
    ;
}

/// The signal that tells the hub to start producing.
pub open spec fn producing_signal(demand: ProductDemand, units: u32, unit_cost: u64) -> FactorySignal {
    FactorySignal::ProducingProductDemand { demand, units, unit_cost }
}

/// The one signal that goes with a new run: a request for the energy it
/// lacks, or the start of production where it lacks none.
pub open spec fn new_run_signal(factory_id: u32, run: ProductionRun) -> FactorySignal {
    if run.energy_needed > 0 {
        FactorySignal::EnergyDemand { factory_id, energy_needed: run.energy_needed as u64 }
    } else {
        producing_signal(run.demand, run.units, run.demand.product.unit_cost_excl_energy)
    }
}

/// Where a pass over the demands stands: the ledger, the signals emitted so
/// far in order, and whether bankruptcy has ended the pass.
pub struct Pass {
    pub ledger: Seq<ProductionRun>,
    pub signals: Seq<FactorySignal>,
    pub aborted: bool,
}

/// One demand's part in a pass that has not been ended.
pub open spec fn production_step(state: FactoryState, before: Pass, demand: ProductDemand) -> Pass {
    if !is_candidate(state, before.ledger, demand) {
        before
    } else if state.balance < demand.product.unit_cost_excl_energy {
        Pass {
            ledger: before.ledger,
            signals: before.signals.push(FactorySignal::DeclaringBankruptcy),
            aborted: true,
        }
    } else if budget_units(state.balance as int, demand) <= demand.product.unit_per_percent {
        before
    } else {
        let run = planned_run(state, demand);
        Pass {
            ledger: before.ledger.push(run),
            signals: before.signals.push(new_run_signal(state.id, run)),
            aborted: false,
        }
    }
}

/// The pass over `demands`, in order, starting from `ledger`. Once a demand
/// has ended it, the demands after it change nothing.
pub open spec fn production_pass(
    state: FactoryState,
    demands: Seq<ProductDemand>,
    ledger: Seq<ProductionRun>,
) -> Pass
    decreases demands.len(),
{
    if demands.len() == 0 {
        Pass { ledger, signals: Seq::empty(), aborted: false }
    } else {
        let before = production_pass(state, demands.drop_last(), ledger);
        if before.aborted {
            before
        } else {
            production_step(state, before, demands.last())
        }
    }
}

/// Once a demand has ended a pass, the pass over all the demands is the pass
/// up to that demand: the later ones add no run and no signal.
pub proof fn lemma_aborted_pass_stays(
    state: FactoryState,
    demands: Seq<ProductDemand>,
    ledger: Seq<ProductionRun>,
    k: int,
)
    requires
        0 <= k <= demands.len(),
        production_pass(state, demands.take(k), ledger).aborted,
    ensures
        production_pass(state, demands, ledger) == production_pass(state, demands.take(k), ledger),
    decreases demands.len(),
{
    if k == demands.len() {
        assert(demands.take(k) =~= demands);
    } else {
        assert(demands.drop_last().take(k) =~= demands.take(k));
        lemma_aborted_pass_stays(state, demands.drop_last(), ledger, k);
    }
}

// ---------------------------------------------------------------- energy offers

/// What the whole of an offer costs.
pub open spec fn energy_cost(offer: EnergyOffer) -> int {
    offer.price_per_unit * offer.units
}

/// An offer is taken when paying the run and the energy leaves money over.
pub open spec fn offer_accepted(balance: int, run: ProductionRun, offer: EnergyOffer) -> bool {
    balance - (run.cost + energy_cost(offer)) > 0
}

/// The ledger after an offer: the newest run pays for the energy if the
/// offer is taken, and nothing else changes.
pub open spec fn ledger_after_offer(
    ledger: Seq<ProductionRun>,
    balance: int,
    offer: EnergyOffer,
) -> Seq<ProductionRun> {
    if ledger.len() > 0 && offer_accepted(balance, ledger.last(), offer) {
        ledger.update(
            ledger.len() - 1,
            ProductionRun { cost: (ledger.last().cost + energy_cost(offer)) as u64, ..ledger.last() },
        )
    } else {
        ledger
    }
}

/// The answer to an offer: none without a run, else acceptance or rejection.
pub open spec fn offer_answer(
    ledger: Seq<ProductionRun>,
    balance: int,
    offer: EnergyOffer,
) -> Option<FactorySignal> {
    if ledger.len() == 0 {
        None
    } else if offer_accepted(balance, ledger.last(), offer) {
        Some(FactorySignal::AcceptEnergyOffer { offer })
    } else {
        Some(FactorySignal::RejectEnergyOffer { offer })
    }
}

// ---------------------------------------------------------------- energy received

/// A run can start: the energy at hand covers what it lacks, and the
/// balance covers its cost.
pub open spec fn run_ready(run: ProductionRun, balance: int, available_energy: int) -> bool {
    run.energy_needed <= available_energy && run.cost <= balance
}

/// `i` is the last place in the ledger whose run can start.
pub open spec fn last_ready_run(
    ledger: Seq<ProductionRun>,
    balance: int,
    available_energy: int,
    i: int,
) -> bool {
    &&& 0 <= i < ledger.len()
    &&& run_ready(ledger[i], balance, available_energy)
    &&& forall|j: int|
        i < j < ledger.len() ==> !run_ready(#[trigger] ledger[j], balance, available_energy)
}

/// The signal that starts a run: its units, never more than the demand's,
/// at the run's cost per unit, rounded down.
pub open spec fn commit_signal(run: ProductionRun) -> FactorySignal
    recommends
        run.units > 0,
{
    producing_signal(
        run.demand,
        least(run.units as int, run.demand.units as int) as u32,
        (run.cost as int / run.units as int) as u64,
    )
}

// ---------------------------------------------------------------- sales

/// The price asked for a unit: its cost and the margin on it, rounded down.
pub open spec fn selling_price(unit_cost: u64, margin: u32) -> int {
    unit_cost + (unit_cost * margin) / (FULL_PERCENT as int)
}

/// One selling signal for each stock entry whose product is in demand above
/// the threshold, in the order of the stock.
pub open spec fn sales_signals(
    stocks: Seq<ProductStock>,
    demands: Seq<ProductDemand>,
    threshold: u32,
    margin: u32,
) -> Seq<FactorySignal>
    decreases stocks.len(),
{
    if stocks.len() == 0 {
        Seq::empty()
    } else {
        let before = sales_signals(stocks.drop_last(), demands, threshold, margin);
        if demand_exceeds(demands, stocks.last().product, threshold) {
            before.push(
                FactorySignal::SellingProduct {
                    stock_index: (stocks.len() - 1) as usize,
                    unit_price: selling_price(stocks.last().unit_production_cost, margin) as u128,
                },
            )
        } else {
            before
        }
    }
}

// ---------------------------------------------------------------- renewables

/// Panels to order: none below the reserve or while an order is under way;
/// else as many as the balance above the reserve pays for, never more than
/// the room left. Panels that cost nothing are limited by the room alone.
pub open spec fn panels_to_buy(
    balance: int,
    awaiting: bool,
    owned: int,
    reserve: int,
    panel_price: int,
    max_panels: int,
) -> int {
    let room = if owned < max_panels { max_panels - owned } else { 0 };
    if balance < reserve || awaiting {
        0
    } else if panel_price == 0 {
        room
    } else {
        least((balance - reserve) / panel_price, room)
    }
}

// ---------------------------------------------------------------- pacing

/// The pause between two polls, in microseconds, for a tick of
/// `tick_duration` milliseconds: half a tick less a margin of 100.
pub open spec fn sleeptime_micros(tick_duration: int) -> int {
    (tick_duration / 2) * 1000 - 100
}

/// The tick lengths for which the pause can be counted in 64 bits.
pub open spec fn tick_in_range(tick_duration: u64) -> bool {
    2 <= tick_duration && (tick_duration / 2) * 1000 <= u64::MAX
}

/// The newest `limit` entries of `history` with `entry` added.
pub open spec fn rolled<T>(history: Seq<T>, entry: T, limit: int) -> Seq<T> {
    let all = history.push(entry);
    if all.len() > limit {
        all.subrange(all.len() - limit, all.len() as int)
    } else {
        all
    }
}

} // verus!
