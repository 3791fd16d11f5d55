//! What holds of the factory's decisions taken together.

use vstd::prelude::*;
use crate::decisions::{
    Pass, budget_units, commit_signal, energy_cost, is_candidate, ledger_after_offer,
    lemma_aborted_pass_stays, lemma_planned_run_exact, new_run_signal, offer_accepted,
    offer_answer, planned_run, production_pass, production_step, run_ready, sales_signals,
    selling_price,
};
use crate::economy::{FactoryState, ProductDemand, ProductStock, demand_exceeds};
use crate::factory::energy_received_answer;
use crate::ledger::{
    ProductionRun, first_run_of_demand, ledger_has_demand, ledger_wf, lemma_push_keeps_wf,
    lemma_recost_keeps_wf,
};
use crate::signals::{EnergyOffer, FactorySignal};

verus! {

/// A pass declares bankruptcy at most once, and only as its last signal:
/// it has been ended exactly when its last signal is the declaration, and
/// no signal before the last is one.
pub proof fn law_bankruptcy_is_last(
    state: FactoryState,
    demands: Seq<ProductDemand>,
    ledger: Seq<ProductionRun>,
)
    ensures
        ({
            let pass = production_pass(state, demands, ledger);
            &&& pass.aborted <==> (pass.signals.len() > 0 && pass.signals.last()
                == FactorySignal::DeclaringBankruptcy)
            &&& forall|i: int|
                0 <= i < pass.signals.len() - 1 ==> #[trigger] pass.signals[i]
                    != FactorySignal::DeclaringBankruptcy
        }),
    decreases demands.len(),
{
    if demands.len() > 0 {
        law_bankruptcy_is_last(state, demands.drop_last(), ledger);
    }
}

/// A candidate of which the balance does not pay one unit ends the pass:
/// the pass over all the demands is the pass up to that candidate with one
/// declaration of bankruptcy added. The ledger gets no run and the hub no
/// signal for that candidate or for any demand after it, and the
/// declaration is the only one of the pass.
pub proof fn law_unaffordable_candidate_ends_pass(
    state: FactoryState,
    demands: Seq<ProductDemand>,
    ledger: Seq<ProductionRun>,
    k: int,
)
    requires
        0 <= k < demands.len(),
        !production_pass(state, demands.take(k), ledger).aborted,
        is_candidate(state, production_pass(state, demands.take(k), ledger).ledger, demands[k]),
        state.balance < demands[k].product.unit_cost_excl_energy,
    ensures
        ({
            let upto = production_pass(state, demands.take(k), ledger);
            let pass = production_pass(state, demands, ledger);
            &&& pass.aborted
            &&& pass.ledger == upto.ledger
            &&& pass.signals == upto.signals.push(FactorySignal::DeclaringBankruptcy)
            &&& forall|i: int|
                0 <= i < upto.signals.len() ==> #[trigger] pass.signals[i]
                    != FactorySignal::DeclaringBankruptcy
        }),
{
    let upto = production_pass(state, demands.take(k), ledger);
    assert(demands.take(k + 1).drop_last() =~= demands.take(k));
    assert(demands.take(k + 1).last() == demands[k]);
    assert(production_pass(state, demands.take(k + 1), ledger) == production_step(
        state,
        upto,
        demands[k],
    ));
    lemma_aborted_pass_stays(state, demands, ledger, k + 1);
    law_bankruptcy_is_last(state, demands, ledger);
}

/// A candidate that the balance pays one unit of, but no more units than
/// one percent of the market, is passed over: no run and no signal.
pub proof fn law_negligible_run_is_skipped(
    state: FactoryState,
    demand: ProductDemand,
    ledger: Seq<ProductionRun>,
)
    requires
        is_candidate(state, ledger, demand),
        state.balance >= demand.product.unit_cost_excl_energy,
        budget_units(state.balance as int, demand) <= demand.product.unit_per_percent,
    ensures
        production_pass(state, seq![demand], ledger) == (Pass {
            ledger,
            signals: Seq::empty(),
            aborted: false,
        }),
        forall|before: Pass|
            before.ledger == ledger ==> #[trigger] production_step(state, before, demand) == before,
{
    let demands = seq![demand];
    assert(demands.drop_last() =~= Seq::<ProductDemand>::empty());
    assert(demands.last() == demand);
    assert(production_pass(state, demands.drop_last(), ledger) == (Pass {
        ledger,
        signals: Seq::empty(),
        aborted: false,
    }));
}

/// A pass leaves the ledger with one run per product at most, and with no
/// run of zero units.
pub proof fn law_pass_keeps_one_run_per_product(
    state: FactoryState,
    demands: Seq<ProductDemand>,
    ledger: Seq<ProductionRun>,
)
    requires
        ledger_wf(ledger),
    ensures
        ledger_wf(production_pass(state, demands, ledger).ledger),
    decreases demands.len(),
{
    if demands.len() > 0 {
        law_pass_keeps_one_run_per_product(state, demands.drop_last(), ledger);
        let before = production_pass(state, demands.drop_last(), ledger);
        let demand = demands.last();
        if !before.aborted && is_candidate(state, before.ledger, demand) && state.balance
            >= demand.product.unit_cost_excl_energy && budget_units(state.balance as int, demand)
            > demand.product.unit_per_percent {
            lemma_planned_run_exact(state, demand);
            lemma_push_keeps_wf(before.ledger, planned_run(state, demand));
        }
    }
}

/// An offer, taken or not, leaves the ledger with one run per product at
/// most, and with the same products.
pub proof fn law_offer_keeps_one_run_per_product(
    ledger: Seq<ProductionRun>,
    balance: int,
    offer: EnergyOffer,
)
    requires
        ledger_wf(ledger),
    ensures
        ledger_wf(ledger_after_offer(ledger, balance, offer)),
        ledger_after_offer(ledger, balance, offer).len() == ledger.len(),
        forall|i: int|
            0 <= i < ledger.len() - 1 ==> #[trigger] ledger_after_offer(ledger, balance, offer)[i]
                == ledger[i],
        ledger.len() > 0 ==> ledger_after_offer(ledger, balance, offer).last() == (ProductionRun {
            cost: ledger_after_offer(ledger, balance, offer).last().cost,
            ..ledger.last()
        }),
{
    if ledger.len() > 0 && offer_accepted(balance, ledger.last(), offer) {
        lemma_recost_keeps_wf(
            ledger,
            ledger.len() - 1,
            (ledger.last().cost + energy_cost(offer)) as u64,
        );
    }
}

/// From a demand to its production, by way of the energy. A candidate that
/// lacks energy gets a run and a request for that energy, and production
/// does not start. When an offer is then taken, the run's cost grows by
/// the price of the energy. When the energy has then come and the balance
/// covers the run, the one signal owed starts this run, which stays in the
/// ledger; it is the run that a receipt for its demand takes out again,
/// which gives back the ledger from before.
pub proof fn law_energy_round_trip(
    ledger: Seq<ProductionRun>,
    demand: ProductDemand,
    at_demand: FactoryState,
    offer: EnergyOffer,
    at_offer: FactoryState,
    at_delivery: FactoryState,
    answer: Option<FactorySignal>,
)
    requires
        ledger_wf(ledger),
        is_candidate(at_demand, ledger, demand),
        at_demand.balance >= demand.product.unit_cost_excl_energy,
        budget_units(at_demand.balance as int, demand) > demand.product.unit_per_percent,
        planned_run(at_demand, demand).energy_needed > 0,
        offer_accepted(at_offer.balance as int, planned_run(at_demand, demand), offer),
        planned_run(at_demand, demand).energy_needed <= at_delivery.available_energy,
        planned_run(at_demand, demand).cost + energy_cost(offer) <= at_delivery.balance,
        energy_received_answer(
            ledger_after_offer(
                production_pass(at_demand, seq![demand], ledger).ledger,
                at_offer.balance as int,
                offer,
            ),
            at_delivery.balance as int,
            at_delivery.available_energy as int,
            answer,
        ),
    ensures
        ({
            let run = planned_run(at_demand, demand);
            let pass = production_pass(at_demand, seq![demand], ledger);
            let funded = ProductionRun { cost: (run.cost + energy_cost(offer)) as u64, ..run };
            let after_offer = ledger_after_offer(pass.ledger, at_offer.balance as int, offer);
            &&& pass.ledger == ledger.push(run)
            &&& pass.signals == seq![
                FactorySignal::EnergyDemand {
                    factory_id: at_demand.id,
                    energy_needed: run.energy_needed as u64,
                },
            ]
            &&& offer_answer(pass.ledger, at_offer.balance as int, offer) == Some(
                FactorySignal::AcceptEnergyOffer { offer },
            )
            &&& funded.cost == run.cost + energy_cost(offer)
            &&& after_offer == ledger.push(funded)
            &&& answer == Some(commit_signal(funded))
            &&& ledger_wf(after_offer)
            &&& first_run_of_demand(after_offer, demand, after_offer.len() - 1)
            &&& after_offer.remove(after_offer.len() - 1) == ledger
        }),
{
    let run = planned_run(at_demand, demand);
    let demands = seq![demand];
    assert(demands.drop_last() =~= Seq::<ProductDemand>::empty());
    assert(demands.last() == demand);
    let start = production_pass(at_demand, demands.drop_last(), ledger);
    assert(start == (Pass { ledger, signals: Seq::empty(), aborted: false }));
    let pass = production_pass(at_demand, demands, ledger);
    assert(pass == production_step(at_demand, start, demand));
    assert(pass.signals =~= seq![new_run_signal(at_demand.id, run)]);
    lemma_planned_run_exact(at_demand, demand);
    lemma_push_keeps_wf(ledger, run);
    let funded = ProductionRun { cost: (run.cost + energy_cost(offer)) as u64, ..run };
    let after_offer = ledger_after_offer(pass.ledger, at_offer.balance as int, offer);
    assert(pass.ledger.last() == run);
    assert(after_offer =~= ledger.push(funded));
    law_offer_keeps_one_run_per_product(pass.ledger, at_offer.balance as int, offer);
    let last = after_offer.len() - 1;
    assert(after_offer[last] == funded);
    assert(run_ready(funded, at_delivery.balance as int, at_delivery.available_energy as int));
    assert forall|j: int| 0 <= j < last implies (#[trigger] after_offer[j]).demand != demand by {
        assert(after_offer[j] == ledger[j]);
        assert(ledger[j].demand.product != demand.product);
    }
    assert(after_offer.remove(last) =~= ledger);
}

/// A receipt for a demand that no run answers finds no run to take out.
pub proof fn law_stale_receipt_finds_no_run(ledger: Seq<ProductionRun>, demand: ProductDemand)
    requires
        !ledger_has_demand(ledger, demand),
    ensures
        forall|i: int| !first_run_of_demand(ledger, demand, i),
{
}

/// A pass only adds to the end of the ledger: the runs from before stay
/// where they were and as they were. Each demand brings one signal at
/// most, and each new run came with a signal of its own.
pub proof fn law_pass_appends(
    state: FactoryState,
    demands: Seq<ProductDemand>,
    ledger: Seq<ProductionRun>,
)
    ensures
        ({
            let pass = production_pass(state, demands, ledger);
            &&& ledger.len() <= pass.ledger.len()
            &&& pass.ledger.take(ledger.len() as int) == ledger
            &&& pass.signals.len() <= demands.len()
            &&& pass.ledger.len() - ledger.len() == pass.signals.len() - (if pass.aborted {
                1int
            } else {
                0int
            })
        }),
    decreases demands.len(),
{
    let pass = production_pass(state, demands, ledger);
    if demands.len() > 0 {
        law_pass_appends(state, demands.drop_last(), ledger);
        let before = production_pass(state, demands.drop_last(), ledger);
        assert(pass.ledger.take(ledger.len() as int) =~= before.ledger.take(ledger.len() as int));
    } else {
        assert(pass.ledger.take(ledger.len() as int) =~= ledger);
    }
}

/// The selling signal owed for the stock entry at `place`.
pub open spec fn selling_signal(stocks: Seq<ProductStock>, margin: u32, place: int) -> FactorySignal {
    FactorySignal::SellingProduct {
        stock_index: place as usize,
        unit_price: selling_price(stocks[place].unit_production_cost, margin) as u128,
    }
}

/// Sales look at each stock entry by itself: an entry whose product is in
/// demand above the threshold gets its selling signal, and every signal
/// is the selling signal of such an entry.
pub proof fn law_sales_signal_per_stock_in_demand(
    stocks: Seq<ProductStock>,
    demands: Seq<ProductDemand>,
    threshold: u32,
    margin: u32,
)
    ensures
        sales_signals(stocks, demands, threshold, margin).len() <= stocks.len(),
        forall|place: int|
            0 <= place < stocks.len() && demand_exceeds(demands, stocks[place].product, threshold)
                ==> sales_signals(stocks, demands, threshold, margin).contains(
                #[trigger] selling_signal(stocks, margin, place),
            ),
        forall|i: int|
            0 <= i < sales_signals(stocks, demands, threshold, margin).len() ==> exists|place: int|
                0 <= place < stocks.len() && demand_exceeds(demands, stocks[place].product, threshold)
                    && #[trigger] sales_signals(stocks, demands, threshold, margin)[i]
                    == #[trigger] selling_signal(stocks, margin, place),
    decreases stocks.len(),
{
    let signals = sales_signals(stocks, demands, threshold, margin);
    if stocks.len() > 0 {
        let rest = stocks.drop_last();
        let before = sales_signals(rest, demands, threshold, margin);
        let last = stocks.len() - 1;
        law_sales_signal_per_stock_in_demand(rest, demands, threshold, margin);
        assert forall|place: int|
            0 <= place < stocks.len() && demand_exceeds(
                demands,
                stocks[place].product,
                threshold,
            ) implies signals.contains(#[trigger] selling_signal(stocks, margin, place)) by {
            if place < last {
                assert(rest[place] == stocks[place]);
                let signal = selling_signal(rest, margin, place);
                assert(before.contains(signal));
                let at = choose|at: int| 0 <= at < before.len() && before[at] == signal;
                assert(signals[at] == signal);
            } else {
                assert(signals[signals.len() - 1] == selling_signal(stocks, margin, place));
            }
        }
        assert forall|i: int| 0 <= i < signals.len() implies exists|place: int|
            0 <= place < stocks.len() && demand_exceeds(demands, stocks[place].product, threshold)
                && #[trigger] signals[i] == #[trigger] selling_signal(stocks, margin, place) by {
            if i < before.len() {
                let place = choose|place: int|
                    0 <= place < rest.len() && demand_exceeds(demands, rest[place].product, threshold)
                        && before[i] == selling_signal(rest, margin, place);
                assert(rest[place] == stocks[place]);
                assert(signals[i] == selling_signal(stocks, margin, place));
            } else {
                assert(signals[i] == selling_signal(stocks, margin, last));
            }
        }
    }
}

} // verus!
