//! The cost model: a table mapping each machine step kind and each
//! builtin function to a cost formula over argument sizes.  Loaded once
//! per evaluation call and immutable thereafter.

use vstd::prelude::*;

use crate::budget::{spec_sat_add, spec_sat_mul, sat_add, sat_mul, ExBudget};
use crate::term::BuiltinId;

verus! {

/// Cost formula for one builtin: a flat base charge plus a charge per
/// size unit of the concrete arguments it is finally applied to.
#[derive(Clone, Copy, Debug, PartialEq, Eq, Structural)]
pub struct BuiltinCost {
    pub base: ExBudget,
    pub per_size_unit: ExBudget,
}

/// Per-step and per-builtin cost table.  `startup` is charged once when
/// the machine starts; `var_step`, `apply_step` and `force_step` are
/// charged for each variable lookup, beta-reduction and forcing step;
/// the builtin entries are charged when a builtin reaches its arity and
/// executes.  Constants, lambdas, delays and builtin references cost
/// nothing to turn into values.
#[derive(Clone, Copy, Debug, PartialEq, Eq, Structural)]
pub struct CostModel {
    pub startup: ExBudget,
    pub var_step: ExBudget,
    pub apply_step: ExBudget,
    pub force_step: ExBudget,
    pub add_integer: BuiltinCost,
    pub subtract_integer: BuiltinCost,
    pub multiply_integer: BuiltinCost,
    pub equals_integer: BuiltinCost,
    pub less_than_integer: BuiltinCost,
    pub if_then_else: BuiltinCost,
}

/// Both dimensions of `c` are strictly positive.
pub open spec fn spec_positive(c: ExBudget) -> bool {
    c.cpu >= 1 && c.mem >= 1
}

impl CostModel {
    /// Well-formedness: the startup charge and every reducible step kind
    /// (beta-reduction, forcing, variable lookup, builtin execution)
    /// carry strictly positive CPU and memory costs.  This is the sole
    /// termination guarantee for non-terminating scripts: no reducible
    /// form may be free, or a script could loop without ever exhausting
    /// its budget.
    pub open spec fn wf(self) -> bool {
        &&& spec_positive(self.startup)
        &&& spec_positive(self.var_step)
        &&& spec_positive(self.apply_step)
        &&& spec_positive(self.force_step)
        &&& spec_positive(self.add_integer.base)
        &&& spec_positive(self.subtract_integer.base)
        &&& spec_positive(self.multiply_integer.base)
        &&& spec_positive(self.equals_integer.base)
        &&& spec_positive(self.less_than_integer.base)
        &&& spec_positive(self.if_then_else.base)
    }

    /// The cost entry for one builtin.
    pub open spec fn spec_builtin_cost(self, id: BuiltinId) -> BuiltinCost {
        match id {
            BuiltinId::AddInteger => self.add_integer,
            BuiltinId::SubtractInteger => self.subtract_integer,
            BuiltinId::MultiplyInteger => self.multiply_integer,
            BuiltinId::EqualsInteger => self.equals_integer,
            BuiltinId::LessThanInteger => self.less_than_integer,
            BuiltinId::IfThenElse => self.if_then_else,
        }
    }

    /// Executable lookup of a builtin's cost entry.
    pub fn builtin_cost(&self, id: BuiltinId) -> (c: BuiltinCost)
        ensures
            c == self.spec_builtin_cost(id),
    {
        match id {
            BuiltinId::AddInteger => self.add_integer,
            BuiltinId::SubtractInteger => self.subtract_integer,
            BuiltinId::MultiplyInteger => self.multiply_integer,
            BuiltinId::EqualsInteger => self.equals_integer,
            BuiltinId::LessThanInteger => self.less_than_integer,
            BuiltinId::IfThenElse => self.if_then_else,
        }
    }

    /// A model charging `step` for the startup and for every step kind,
    /// with no size-proportional component: the shape used throughout
    /// the concrete test scenarios.
    pub fn uniform(step: ExBudget) -> (cm: CostModel)
        ensures
            cm == CostModel::spec_uniform(step),
            spec_positive(step) ==> cm.wf(),
    {
        let b = BuiltinCost { base: step, per_size_unit: ExBudget { cpu: 0, mem: 0 } };
        CostModel {
            startup: step,
            var_step: step,
            apply_step: step,
            force_step: step,
            add_integer: b,
            subtract_integer: b,
            multiply_integer: b,
            equals_integer: b,
            less_than_integer: b,
            if_then_else: b,
        }
    }

    /// What `uniform` builds.
    pub open spec fn spec_uniform(step: ExBudget) -> CostModel {
        let b = BuiltinCost { base: step, per_size_unit: ExBudget { cpu: 0, mem: 0 } };
        CostModel {
            startup: step,
            var_step: step,
            apply_step: step,
            force_step: step,
            add_integer: b,
            subtract_integer: b,
            multiply_integer: b,
            equals_integer: b,
            less_than_integer: b,
            if_then_else: b,
        }
    }
}

/// The charge for executing builtin `id` on arguments whose sizes sum to
/// `size_sum`: base plus per-size-unit times the concrete total size,
/// saturating (a saturated cost simply exhausts any real budget).
pub open spec fn spec_call_cost(cm: CostModel, id: BuiltinId, size_sum: u64) -> ExBudget {
    let c = cm.spec_builtin_cost(id);
    ExBudget {
        cpu: spec_sat_add(c.base.cpu, spec_sat_mul(c.per_size_unit.cpu, size_sum)),
        mem: spec_sat_add(c.base.mem, spec_sat_mul(c.per_size_unit.mem, size_sum)),
    }
}

/// Executable builtin-call cost; agrees with `spec_call_cost`.
pub fn call_cost(cm: &CostModel, id: BuiltinId, size_sum: u64) -> (r: ExBudget)
    ensures
        r == spec_call_cost(*cm, id, size_sum),
{
    let c = cm.builtin_cost(id);
    ExBudget {
        cpu: sat_add(c.base.cpu, sat_mul(c.per_size_unit.cpu, size_sum)),
        mem: sat_add(c.base.mem, sat_mul(c.per_size_unit.mem, size_sum)),
    }
}

} // verus!
