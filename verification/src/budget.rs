//! Execution budgets: a pair of resource counters (CPU and memory units)
//! with a fixed ceiling.  Both dimensions are monotonically non-increasing
//! across machine steps; evaluation fails the instant either would go
//! negative, and the exhausted dimension is recorded.

use vstd::prelude::*;

verus! {

/// Which of the two budget dimensions was exhausted.
#[derive(Clone, Copy, Debug, PartialEq, Eq, Structural)]
pub enum Dimension {
    Cpu,
    Mem,
}

/// A resource budget: CPU units and memory units, tracked and checked
/// independently.
#[derive(Clone, Copy, Debug, PartialEq, Eq, Structural)]
pub struct ExBudget {
    pub cpu: u64,
    pub mem: u64,
}

impl ExBudget {
    /// `other` fits under `self` in both dimensions.
    pub open spec fn spec_covers(self, other: ExBudget) -> bool {
        other.cpu <= self.cpu && other.mem <= self.mem
    }
}

/// What debiting `cost` from `b` yields: the CPU dimension is checked
/// first, then memory; a debit is atomic, so on failure `b` is unchanged.
pub open spec fn spec_debit(b: ExBudget, cost: ExBudget) -> Result<ExBudget, Dimension> {
    if cost.cpu > b.cpu {
        Err(Dimension::Cpu)
    } else if cost.mem > b.mem {
        Err(Dimension::Mem)
    } else {
        Ok(ExBudget { cpu: (b.cpu - cost.cpu) as u64, mem: (b.mem - cost.mem) as u64 })
    }
}

/// Debit `cost` from `b`, failing with the first exhausted dimension.
/// Never partially applied: either both counters decrease or neither.
pub fn debit(b: ExBudget, cost: ExBudget) -> (r: Result<ExBudget, Dimension>)
    ensures
        r == spec_debit(b, cost),
        r is Ok ==> b.spec_covers(r->Ok_0),
{
    if cost.cpu > b.cpu {
        Err(Dimension::Cpu)
    } else if cost.mem > b.mem {
        Err(Dimension::Mem)
    } else {
        Ok(ExBudget { cpu: b.cpu - cost.cpu, mem: b.mem - cost.mem })
    }
}

/// Saturating component-wise sum, used by cost formulas; a cost that
/// saturates simply exhausts any real budget.
pub open spec fn spec_sat_add(a: u64, b: u64) -> u64 {
    if a + b > u64::MAX {
        u64::MAX
    } else {
        (a + b) as u64
    }
}

/// Saturating product, used by size-proportional cost formulas.
pub open spec fn spec_sat_mul(a: u64, b: u64) -> u64 {
    if a * b > u64::MAX {
        u64::MAX
    } else {
        (a * b) as u64
    }
}

/// Executable saturating addition; agrees with `spec_sat_add`.
pub fn sat_add(a: u64, b: u64) -> (r: u64)
    ensures
        r == spec_sat_add(a, b),
{
    a.saturating_add(b)
}

/// Executable saturating multiplication; agrees with `spec_sat_mul`.
pub fn sat_mul(a: u64, b: u64) -> (r: u64)
    ensures
        r == spec_sat_mul(a, b),
{
    match a.checked_mul(b) {
        Some(r) => r,
        None => u64::MAX,
    }
}

/// The budget actually consumed when an evaluation that started at
/// `ceiling` stopped with `remaining` left (meaningful when
/// `ceiling.spec_covers(remaining)`, which the machine guarantees).
pub open spec fn spec_consumed(ceiling: ExBudget, remaining: ExBudget) -> ExBudget {
    ExBudget {
        cpu: (ceiling.cpu - remaining.cpu) as u64,
        mem: (ceiling.mem - remaining.mem) as u64,
    }
}

/// Executable consumed-budget computation; agrees with `spec_consumed`.
pub fn consumed(ceiling: ExBudget, remaining: ExBudget) -> (r: ExBudget)
    requires
        ceiling.spec_covers(remaining),
    ensures
        r == spec_consumed(ceiling, remaining),
{
    ExBudget { cpu: ceiling.cpu - remaining.cpu, mem: ceiling.mem - remaining.mem }
}

} // verus!
