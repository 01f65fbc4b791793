use uplc_engine::budget::{consumed, debit, sat_add, sat_mul, Dimension, ExBudget};
use uplc_engine::cost::{call_cost, BuiltinCost, CostModel};
use uplc_engine::term::{builtin_arity, BuiltinId};

fn budget(cpu: u64, mem: u64) -> ExBudget {
    ExBudget { cpu, mem }
}

#[test]
fn debit_subtracts_both_dimensions() {
    assert_eq!(debit(budget(10, 20), budget(3, 4)), Ok(budget(7, 16)));
    assert_eq!(debit(budget(3, 4), budget(3, 4)), Ok(budget(0, 0)));
}

#[test]
fn debit_reports_the_exhausted_dimension_and_is_atomic() {
    assert_eq!(debit(budget(1, 5), budget(2, 2)), Err(Dimension::Cpu));
    assert_eq!(debit(budget(5, 1), budget(2, 2)), Err(Dimension::Mem));
    // Both short: the CPU dimension is checked first.
    assert_eq!(debit(budget(0, 0), budget(1, 1)), Err(Dimension::Cpu));
}

#[test]
fn saturating_arithmetic_caps_instead_of_wrapping() {
    assert_eq!(sat_add(u64::MAX - 1, 1), u64::MAX);
    assert_eq!(sat_add(u64::MAX, 5), u64::MAX);
    assert_eq!(sat_add(2, 3), 5);
    assert_eq!(sat_mul(u64::MAX / 2, 3), u64::MAX);
    assert_eq!(sat_mul(6, 7), 42);
    assert_eq!(sat_mul(0, u64::MAX), 0);
}

#[test]
fn consumed_is_the_ceiling_minus_the_remainder() {
    assert_eq!(consumed(budget(10, 20), budget(4, 5)), budget(6, 15));
    assert_eq!(consumed(budget(10, 20), budget(10, 20)), budget(0, 0));
}

#[test]
fn builtin_arities_are_fixed() {
    assert_eq!(builtin_arity(BuiltinId::AddInteger), 2);
    assert_eq!(builtin_arity(BuiltinId::SubtractInteger), 2);
    assert_eq!(builtin_arity(BuiltinId::MultiplyInteger), 2);
    assert_eq!(builtin_arity(BuiltinId::EqualsInteger), 2);
    assert_eq!(builtin_arity(BuiltinId::LessThanInteger), 2);
    assert_eq!(builtin_arity(BuiltinId::IfThenElse), 3);
}

#[test]
fn call_cost_is_base_plus_size_proportional_part() {
    let mut cm = CostModel::uniform(budget(1, 1));
    cm.add_integer = BuiltinCost { base: budget(5, 7), per_size_unit: budget(2, 3) };
    assert_eq!(call_cost(&cm, BuiltinId::AddInteger, 2), budget(9, 13));
    assert_eq!(call_cost(&cm, BuiltinId::AddInteger, 0), budget(5, 7));
    // The formula saturates rather than wrapping.
    cm.add_integer = BuiltinCost { base: budget(1, 1), per_size_unit: budget(u64::MAX, 1) };
    assert_eq!(call_cost(&cm, BuiltinId::AddInteger, 2), budget(u64::MAX, 3));
}

#[test]
fn uniform_model_charges_the_same_for_every_step_kind() {
    let cm = CostModel::uniform(budget(3, 4));
    assert_eq!(cm.startup, budget(3, 4));
    assert_eq!(cm.var_step, budget(3, 4));
    assert_eq!(cm.apply_step, budget(3, 4));
    assert_eq!(cm.force_step, budget(3, 4));
    assert_eq!(call_cost(&cm, BuiltinId::IfThenElse, 3), budget(3, 4));
}
