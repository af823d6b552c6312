//! Pre-execution weight metering.
//!
//! Mutating operations are charged an estimated cost — the declared base cost
//! of the operation plus a ten-percent margin — against the caller's remaining
//! weight budget *before* the operation decodes its input or touches the
//! ledger. Charging fails closed: when the budget does not cover the estimate,
//! nothing is deducted and the operation is never attempted.

use vstd::prelude::*;

verus! {

/// The declared base costs of the mutating operations, fixed by the
/// surrounding runtime's benchmarking. Transfers of allowances reuse the
/// plain transfer cost.
#[derive(Clone, Copy, Debug, PartialEq, Eq, Structural)]
pub struct WeightSchedule {
    /// Base cost of a transfer (also charged for a transfer-from).
    pub transfer: u64,
    /// Base cost of an approval.
    pub approve: u64,
}

/// The estimated cost charged for a mutating operation with declared base
/// cost `base`: the base plus a ten-percent margin, saturating at the top of
/// the weight range. The margin absorbs estimation error; it is never
/// refunded.
pub open spec fn surcharged(base: u64) -> u64 {
    if base + base / 10 <= u64::MAX {
        (base + base / 10) as u64
    } else {
        u64::MAX
    }
}

/// Computes [`surcharged`]`(base)` with saturating arithmetic.
pub fn estimated_cost(base: u64) -> (cost: u64)
    ensures
        cost == surcharged(base),
{
    let margin: u64 = base / 10;
    if base <= u64::MAX - margin {
        base + margin
    } else {
        u64::MAX
    }
}

/// A caller's remaining weight budget for one dispatch.
///
/// The meter only ever decreases, and only through [`WeightMeter::charge`],
/// which either deducts the full amount or deducts nothing.
#[derive(Clone, Copy, Debug, PartialEq, Eq, Structural)]
pub struct WeightMeter {
    remaining: u64,
}

impl WeightMeter {
    /// The weight still available to the caller.
    pub closed spec fn spec_remaining(&self) -> u64 {
        self.remaining
    }

    /// A fresh meter holding the caller's whole budget.
    pub fn new(budget: u64) -> (meter: WeightMeter)
        ensures
            meter.spec_remaining() == budget,
    {
        WeightMeter { remaining: budget }
    }

    /// The weight still available to the caller.
    pub fn remaining(&self) -> (r: u64)
        ensures
            r == self.spec_remaining(),
    {
        self.remaining
    }

    /// Charges `amount` against the budget. The charge is atomic and fails
    /// closed: either the full amount is deducted, or the budget is left
    /// untouched and the charge is refused.
    pub fn charge(&mut self, amount: u64) -> (r: Result<(), ()>)
        ensures
            amount <= old(self).spec_remaining() ==> r is Ok && final(self).spec_remaining()
                == old(self).spec_remaining() - amount,
            amount > old(self).spec_remaining() ==> r is Err && *final(self) == *old(self),
    {
        if amount <= self.remaining {
            self.remaining = self.remaining - amount;
            Ok(())
        } else {
            Err(())
        }
    }
}

} // verus!
