//! One turn of the factory's loop: what it does with a message from each of
//! its three channels. The caller polls the channels, hands over what came,
//! publishes the signals that come back, and sleeps.

use vstd::prelude::*;
use crate::decisions::{
    ledger_after_offer, offer_answer, production_pass, rolled, sales_signals, sleeptime_micros,
    tick_in_range,
};
use crate::economy::{EconomyState, FactoryState};
use crate::factory::{
    Factory, FactoryView, RECEIPT_HISTORY, as_signals, energy_received_answer,
    production_complete_answer, renewables_answer,
};
use crate::ledger::ProductionRun;
use crate::signals::{BroadcastSignal, ControlSignal, FactorySignal, HubSignal, TimerEvent};

verus! {

/// What the factory wants done after a control signal.
pub struct ControlOutcome {
    /// To publish, in this order.
    pub signals: Vec<FactorySignal>,
    /// The factory is bankrupt and a day has passed: say so in the log.
    pub bankrupt_notice: bool,
    /// Leave the loop.
    pub quit: bool,
}

/// Production is looked at on every fifth minute.
pub open spec fn production_due(event: TimerEvent, minute: u32) -> bool {
    event.at_least_minute && minute % 5 == 0
}

/// Sales are looked at on every sixth minute, whether or not production is.
pub open spec fn sales_due(event: TimerEvent, minute: u32) -> bool {
    event.at_least_minute && minute % 6 == 0
}

/// The signal at the head of `signals`, if there is one.
pub open spec fn first_signal(signals: Seq<FactorySignal>) -> Option<FactorySignal> {
    if signals.len() == 0 {
        None
    } else {
        Some(signals[0])
    }
}

/// What `Factory::on_hub_signal` owes for each kind of signal.
pub open spec fn hub_answer(
    before: FactoryView,
    after: FactoryView,
    state: FactoryState,
    economy: EconomyState,
    signal: HubSignal,
    signals: Seq<FactorySignal>,
) -> bool {
    match signal {
        HubSignal::EnergyOffered { offer } => {
            &&& after == FactoryView {
                ledger: ledger_after_offer(before.ledger, state.balance as int, offer),
                ..before
            }
            &&& signals == as_signals(offer_answer(before.ledger, state.balance as int, offer))
        },
        HubSignal::EnergyTransferred { receipt } => {
            &&& after == FactoryView {
                receipts: rolled(before.receipts, receipt, RECEIPT_HISTORY as int),
                ..before
            }
            &&& signals.len() <= 1
            &&& energy_received_answer(
                before.ledger,
                state.balance as int,
                state.available_energy as int,
                first_signal(signals),
            )
        },
        HubSignal::ProductionComplete { receipt } => production_complete_answer(
            before,
            after,
            state,
            economy,
            receipt.demand,
            signals,
        ),
        HubSignal::RenewableEnergyProduced => {
            &&& after == FactoryView {
                ledger: production_pass(state, economy.product_demands@, before.ledger).ledger,
                ..before
            }
            &&& signals == production_pass(state, economy.product_demands@, before.ledger).signals
        },
    }
}

/// The ledger after a tick: a production pass where one is due.
pub open spec fn tick_ledger(
    before: FactoryView,
    state: FactoryState,
    economy: EconomyState,
    event: TimerEvent,
    minute: u32,
) -> Seq<ProductionRun> {
    if production_due(event, minute) {
        production_pass(state, economy.product_demands@, before.ledger).ledger
    } else {
        before.ledger
    }
}

/// The signals of a tick on which the factory is not bankrupt: those of the
/// production pass, then those of the sales, then the order for solar
/// panels, each where it is due.
pub open spec fn tick_signals(
    before: FactoryView,
    state: FactoryState,
    economy: EconomyState,
    event: TimerEvent,
    minute: u32,
) -> Seq<FactorySignal> {
    let produced = if production_due(event, minute) {
        production_pass(state, economy.product_demands@, before.ledger).signals
    } else {
        Seq::empty()
    };
    let sold = if sales_due(event, minute) {
        sales_signals(
            state.product_stocks@,
            economy.product_demands@,
            before.sell_threshold,
            before.profit_margin,
        )
    } else {
        Seq::empty()
    };
    let bought = if event.at_least_hour {
        as_signals(renewables_answer(before, state))
    } else {
        Seq::empty()
    };
    produced + sold + bought
}

/// What `Factory::on_control_signal` owes for each kind of signal.
pub open spec fn control_answer(
    before: FactoryView,
    after: FactoryView,
    state: FactoryState,
    economy: EconomyState,
    minute: u32,
    signal: ControlSignal,
    signals: Seq<FactorySignal>,
    bankrupt_notice: bool,
    quit: bool,
) -> bool {
    match signal {
        ControlSignal::Timer { event } => if state.is_bankrupt {
            &&& after == before
            &&& signals.len() == 0
            &&& bankrupt_notice == event.at_least_day
            &&& !quit
        } else {
            &&& after == FactoryView {
                ledger: tick_ledger(before, state, economy, event, minute),
                ..before
            }
            &&& signals == tick_signals(before, state, economy, event, minute)
            &&& !bankrupt_notice
            &&& !quit
        },
        ControlSignal::SpeedChange { tick_duration } => {
            &&& after == FactoryView {
                sleeptime: sleeptime_micros(tick_duration as int) as u64,
                ..before
            }
            &&& signals.len() == 0
            &&& !bankrupt_notice
            &&& !quit
        },
        ControlSignal::Quit => {
            &&& after == before
            &&& signals.len() == 0
            &&& !bankrupt_notice
            &&& quit
        },
        ControlSignal::Other => {
            &&& after == before
            &&& signals.len() == 0
            &&& !bankrupt_notice
            &&& !quit
        },
    }
}

/// Moves the signals of `more` to the end of `signals`, in order.
fn append_signals(signals: &mut Vec<FactorySignal>, more: &Vec<FactorySignal>)
    ensures
        final(signals)@ == old(signals)@ + more@,
{
    let mut i: usize = 0;
    while i < more.len()
        invariant
            i <= more@.len(),
            signals@ == old(signals)@ + more@.take(i as int),
        decreases more@.len() - i,
    {
        signals.push(more[i]);
        proof {
            assert(more@.take(i + 1) =~= more@.take(i as int).push(more@[i as int]));
            assert(signals@ =~= old(signals)@ + more@.take(i + 1));
        }
        i += 1;
    }
    proof {
        assert(more@.take(i as int) =~= more@);
    }
}

/// The signal of `answer` as a vector: empty where there is none.
fn signals_of(answer: Option<FactorySignal>) -> (signals: Vec<FactorySignal>)
    ensures
        signals@ == as_signals(answer),
{
    let mut signals: Vec<FactorySignal> = Vec::new();
    match answer {
        Some(signal) => {
            signals.push(signal);
            proof {
                assert(signals@ =~= seq![signal]);
            }
        },
        None => {
            proof {
                assert(signals@ =~= Seq::empty());
            }
        },
    }
    signals
}

impl Factory {
    /// Whether a signal on the shared channel is another factory's request
    /// for energy. The factory does nothing about it yet.
    pub fn on_broadcast(&self, state: &FactoryState, signal: &BroadcastSignal) -> (foreign_demand: bool)
        ensures
            foreign_demand == (match *signal {
                BroadcastSignal::EnergyDemand { factory_id, .. } => factory_id != state.id,
                BroadcastSignal::Other => false,
            }),
    {
        match *signal {
            BroadcastSignal::EnergyDemand { factory_id, .. } => factory_id != state.id,
            BroadcastSignal::Other => false,
        }
    }

    /// Handles a signal addressed to the factory: an energy offer is
    /// answered, a delivery of energy is recorded and may start a run, a
    /// completed production leaves the ledger, and renewable energy gives
    /// cause for a production pass.
    pub fn on_hub_signal(
        &mut self,
        state: &FactoryState,
        economy: &EconomyState,
        signal: &HubSignal,
    ) -> (signals: Vec<FactorySignal>)
        requires
            old(self).wf(),
        ensures
            final(self).wf(),
            hub_answer(old(self)@, final(self)@, *state, *economy, *signal, signals@),
    {
        match *signal {
            HubSignal::EnergyOffered { offer } => {
                let answer = self.evaluate_pp_energy_offer(state, &offer);
                signals_of(answer)
            },
            HubSignal::EnergyTransferred { receipt } => {
                self.record_energy_receipt(receipt);
                let answer = self.energy_received(state);
                signals_of(answer)
            },
            HubSignal::ProductionComplete { receipt } => self.production_complete(
                state,
                economy,
                &receipt,
            ),
            HubSignal::RenewableEnergyProduced => self.maybe_produce_goods(state, economy),
        }
    }

    /// Handles a control signal. On a tick, a bankrupt factory only asks
    /// for a notice once a day has passed; another looks at production on
    /// every fifth minute, at sales on every sixth, and at solar panels on
    /// every hour. A change of speed sets the pause anew, and a quit signal
    /// asks to leave the loop.
    pub fn on_control_signal(
        &mut self,
        state: &FactoryState,
        economy: &EconomyState,
        minute: u32,
        signal: &ControlSignal,
    ) -> (outcome: ControlOutcome)
        requires
            old(self).wf(),
            match *signal {
                ControlSignal::SpeedChange { tick_duration } => tick_in_range(tick_duration),
                _ => true,
            },
        ensures
            final(self).wf(),
            control_answer(
                old(self)@,
                final(self)@,
                *state,
                *economy,
                minute,
                *signal,
                outcome.signals@,
                outcome.bankrupt_notice,
                outcome.quit,
            ),
    {
        let mut signals: Vec<FactorySignal> = Vec::new();
        let mut bankrupt_notice = false;
        let mut quit = false;
        match *signal {
            ControlSignal::Timer { event } => {
                if state.is_bankrupt {
                    bankrupt_notice = event.at_least_day;
                } else {
                    if event.at_least_minute && minute % 5 == 0 {
                        let produced = self.maybe_produce_goods(state, economy);
                        append_signals(&mut signals, &produced);
                    }
                    if event.at_least_minute && minute % 6 == 0 {
                        let sold = self.maybe_sell_goods(state, economy);
                        append_signals(&mut signals, &sold);
                    }
                    if event.at_least_hour {
                        let bought = signals_of(self.maybe_buy_renewables(state));
                        append_signals(&mut signals, &bought);
                    }
                    proof {
                        assert(signals@ =~= tick_signals(old(self)@, *state, *economy, event, minute));
                    }
                }
            },
            ControlSignal::SpeedChange { tick_duration } => {
                self.change_speed(tick_duration);
            },
            ControlSignal::Quit => {
                quit = true;
            },
            ControlSignal::Other => {},
        }
        ControlOutcome { signals, bankrupt_notice, quit }
    }
}

} // verus!
