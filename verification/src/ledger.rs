//! The production ledger: the runs that the factory has committed to.

use vstd::prelude::*;
use crate::economy::{Product, ProductDemand};

verus! {

/// A commitment to make `units` of a product against one demand.
#[derive(Clone, Copy, Debug, PartialEq, Eq, Structural)]
pub struct ProductionRun {
    pub demand: ProductDemand,
    pub units: u32,
    /// Money committed so far: production first, energy once an offer is accepted.
    pub cost: u64,
    /// Energy still missing before production can start; not positive when
    /// none is. Wide enough for any count of units times any energy per unit.
    pub energy_needed: i128,
}

/// Whether some run of the ledger makes `product`.
pub open spec fn ledger_has_product(ledger: Seq<ProductionRun>, product: Product) -> bool {
    exists|i: int| 0 <= i < ledger.len() && (#[trigger] ledger[i]).demand.product == product
}

/// Whether some run of the ledger answers `demand`.
pub open spec fn ledger_has_demand(ledger: Seq<ProductionRun>, demand: ProductDemand) -> bool {
    exists|i: int| 0 <= i < ledger.len() && (#[trigger] ledger[i]).demand == demand
}

/// No two runs make the same product.
pub open spec fn distinct_products(ledger: Seq<ProductionRun>) -> bool {
    forall|i: int, j: int|
        0 <= i < j < ledger.len() ==> (#[trigger] ledger[i]).demand.product != (
        #[trigger] ledger[j]).demand.product
}

/// What holds of every ledger: one run per product, and no run of zero units.
pub open spec fn ledger_wf(ledger: Seq<ProductionRun>) -> bool {
    &&& distinct_products(ledger)
    &&& forall|i: int| 0 <= i < ledger.len() ==> (#[trigger] ledger[i]).units > 0
}

/// `i` is the first place in the ledger whose run makes `product`.
pub open spec fn first_run_of_product(ledger: Seq<ProductionRun>, product: Product, i: int) -> bool {
    &&& 0 <= i < ledger.len()
    &&& ledger[i].demand.product == product
    &&& forall|j: int| 0 <= j < i ==> (#[trigger] ledger[j]).demand.product != product
}

/// `i` is the first place in the ledger whose run answers `demand`.
pub open spec fn first_run_of_demand(ledger: Seq<ProductionRun>, demand: ProductDemand, i: int) -> bool {
    &&& 0 <= i < ledger.len()
    &&& ledger[i].demand == demand
    &&& forall|j: int| 0 <= j < i ==> (#[trigger] ledger[j]).demand != demand
}

/// Adding a run for a product that the ledger lacks keeps the ledger well formed.
pub proof fn lemma_push_keeps_wf(ledger: Seq<ProductionRun>, run: ProductionRun)
    requires
        ledger_wf(ledger),
        !ledger_has_product(ledger, run.demand.product),
        run.units > 0,
    ensures
        ledger_wf(ledger.push(run)),
{
    let after = ledger.push(run);
    assert forall|i: int, j: int| 0 <= i < j < after.len() implies (#[trigger] after[i]).demand.product
        != (#[trigger] after[j]).demand.product by {
        if j == ledger.len() {
            assert(ledger[i].demand.product != run.demand.product);
        } else {
            assert(after[i] == ledger[i] && after[j] == ledger[j]);
        }
    }
}

/// Taking a run out keeps the ledger well formed.
pub proof fn lemma_remove_keeps_wf(ledger: Seq<ProductionRun>, at: int)
    requires
        ledger_wf(ledger),
        0 <= at < ledger.len(),
    ensures
        ledger_wf(ledger.remove(at)),
{
    let after = ledger.remove(at);
    assert forall|i: int, j: int| 0 <= i < j < after.len() implies (#[trigger] after[i]).demand.product
        != (#[trigger] after[j]).demand.product by {
        let oi = if i < at { i } else { i + 1 };
        let oj = if j < at { j } else { j + 1 };
        assert(after[i] == ledger[oi] && after[j] == ledger[oj]);
    }
    assert forall|i: int| 0 <= i < after.len() implies (#[trigger] after[i]).units > 0 by {
        let oi = if i < at { i } else { i + 1 };
        assert(after[i] == ledger[oi]);
    }
}

/// Changing what a run costs keeps the ledger well formed.
pub proof fn lemma_recost_keeps_wf(ledger: Seq<ProductionRun>, at: int, cost: u64)
    requires
        ledger_wf(ledger),
        0 <= at < ledger.len(),
    ensures
        ledger_wf(ledger.update(at, ProductionRun { cost, ..ledger[at] })),
{
    let after = ledger.update(at, ProductionRun { cost, ..ledger[at] });
    assert forall|i: int, j: int| 0 <= i < j < after.len() implies (#[trigger] after[i]).demand.product
        != (#[trigger] after[j]).demand.product by {
        assert(after[i].demand == ledger[i].demand && after[j].demand == ledger[j].demand);
    }
    assert forall|i: int| 0 <= i < after.len() implies (#[trigger] after[i]).units > 0 by {
        assert(after[i].units == ledger[i].units);
    }
}

} // verus!
