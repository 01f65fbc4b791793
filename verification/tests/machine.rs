use uplc_engine::budget::{Dimension, ExBudget};
use uplc_engine::cost::CostModel;
use uplc_engine::machine::{evaluate, MachineError};
use uplc_engine::term::{BuiltinId, Const, Term};
use uplc_engine::value::Value;

fn budget(cpu: u64, mem: u64) -> ExBudget {
    ExBudget { cpu, mem }
}

fn unit_cost_model() -> CostModel {
    CostModel::uniform(budget(1, 1))
}

fn cint(i: i64) -> Term {
    Term::Constant(Const::Integer(i))
}

fn apply(f: Term, a: Term) -> Term {
    Term::Apply(Box::new(f), Box::new(a))
}

fn lam(body: Term) -> Term {
    Term::Lambda(Box::new(body))
}

fn call2(id: BuiltinId, x: Term, y: Term) -> Term {
    apply(apply(Term::Builtin(id), x), y)
}

#[test]
fn constant_under_exact_budget_consumes_startup_only() {
    let cm = unit_cost_model();
    let o = evaluate(&cint(42), budget(1, 1), &cm);
    assert_eq!(o.result, Ok(Value::Con(Const::Integer(42))));
    assert_eq!(o.remaining, budget(0, 0));
}

#[test]
fn zero_ceiling_fails_immediately_for_any_term() {
    let cm = unit_cost_model();
    for t in [cint(42), Term::Error, apply(lam(Term::Var(0)), cint(7))] {
        let o = evaluate(&t, budget(0, 0), &cm);
        assert_eq!(o.result, Err(MachineError::OutOfBudget(Dimension::Cpu)));
        assert_eq!(o.remaining, budget(0, 0));
    }
}

#[test]
fn identity_applied_to_seven_takes_two_charged_steps() {
    let cm = unit_cost_model();
    // Startup, plus exactly two charged steps: the beta-reduction and
    // the variable lookup.
    let t = apply(lam(Term::Var(0)), cint(7));
    let o = evaluate(&t, budget(3, 3), &cm);
    assert_eq!(o.result, Ok(Value::Con(Const::Integer(7))));
    assert_eq!(o.remaining, budget(0, 0));
    // One unit short in either dimension and the same term is rejected.
    let o = evaluate(&t, budget(2, 3), &cm);
    assert_eq!(o.result, Err(MachineError::OutOfBudget(Dimension::Cpu)));
    let o = evaluate(&t, budget(3, 2), &cm);
    assert_eq!(o.result, Err(MachineError::OutOfBudget(Dimension::Mem)));
}

#[test]
fn error_term_fails_with_script_error_at_the_cost_of_reaching_it() {
    let cm = unit_cost_model();
    for ceiling in [budget(1, 1), budget(10, 10), budget(500, 7)] {
        let o = evaluate(&Term::Error, ceiling, &cm);
        assert_eq!(o.result, Err(MachineError::ScriptError));
        assert_eq!(o.remaining, budget(ceiling.cpu - 1, ceiling.mem - 1));
    }
}

#[test]
fn evaluation_is_deterministic() {
    let cm = unit_cost_model();
    let t = apply(call2(BuiltinId::AddInteger, cint(20), cint(1)), cint(3));
    let o1 = evaluate(&t, budget(7, 7), &cm);
    let o2 = evaluate(&t, budget(7, 7), &cm);
    assert_eq!(o1, o2);
}

#[test]
fn add_integer_computes_and_charges_base_cost() {
    let cm = unit_cost_model();
    let t = call2(BuiltinId::AddInteger, cint(2), cint(3));
    // Startup + two application steps + the builtin's base cost.
    let o = evaluate(&t, budget(10, 10), &cm);
    assert_eq!(o.result, Ok(Value::Con(Const::Integer(5))));
    assert_eq!(o.remaining, budget(6, 6));
}

#[test]
fn subtract_and_multiply_and_comparisons() {
    let cm = unit_cost_model();
    let big = budget(100, 100);
    let o = evaluate(&call2(BuiltinId::SubtractInteger, cint(2), cint(5)), big, &cm);
    assert_eq!(o.result, Ok(Value::Con(Const::Integer(-3))));
    let o = evaluate(&call2(BuiltinId::MultiplyInteger, cint(-4), cint(6)), big, &cm);
    assert_eq!(o.result, Ok(Value::Con(Const::Integer(-24))));
    let o = evaluate(&call2(BuiltinId::EqualsInteger, cint(7), cint(7)), big, &cm);
    assert_eq!(o.result, Ok(Value::Con(Const::Boolean(true))));
    let o = evaluate(&call2(BuiltinId::EqualsInteger, cint(7), cint(8)), big, &cm);
    assert_eq!(o.result, Ok(Value::Con(Const::Boolean(false))));
    let o = evaluate(&call2(BuiltinId::LessThanInteger, cint(3), cint(4)), big, &cm);
    assert_eq!(o.result, Ok(Value::Con(Const::Boolean(true))));
    let o = evaluate(&call2(BuiltinId::LessThanInteger, cint(4), cint(3)), big, &cm);
    assert_eq!(o.result, Ok(Value::Con(Const::Boolean(false))));
}

#[test]
fn integer_overflow_is_a_builtin_fault_not_a_crash() {
    let cm = unit_cost_model();
    let t = call2(BuiltinId::AddInteger, cint(i64::MAX), cint(1));
    let o = evaluate(&t, budget(100, 100), &cm);
    assert_eq!(o.result, Err(MachineError::TypeMismatch));
    let t = call2(BuiltinId::MultiplyInteger, cint(i64::MAX / 2), cint(3));
    let o = evaluate(&t, budget(100, 100), &cm);
    assert_eq!(o.result, Err(MachineError::TypeMismatch));
}

#[test]
fn builtin_on_wrong_operand_kind_is_a_type_mismatch() {
    let cm = unit_cost_model();
    let t = call2(BuiltinId::AddInteger, Term::Constant(Const::Boolean(true)), cint(1));
    let o = evaluate(&t, budget(100, 100), &cm);
    assert_eq!(o.result, Err(MachineError::TypeMismatch));
}

#[test]
fn if_then_else_picks_the_branch_by_the_condition() {
    let cm = unit_cost_model();
    let big = budget(100, 100);
    let pick = |cond: bool| {
        apply(
            apply(
                apply(Term::Builtin(BuiltinId::IfThenElse), Term::Constant(Const::Boolean(cond))),
                cint(10),
            ),
            cint(20),
        )
    };
    let o = evaluate(&pick(true), big, &cm);
    assert_eq!(o.result, Ok(Value::Con(Const::Integer(10))));
    let o = evaluate(&pick(false), big, &cm);
    assert_eq!(o.result, Ok(Value::Con(Const::Integer(20))));
    // A non-boolean condition is a builtin fault.
    let bad = apply(apply(apply(Term::Builtin(BuiltinId::IfThenElse), cint(1)), cint(10)), cint(20));
    let o = evaluate(&bad, big, &cm);
    assert_eq!(o.result, Err(MachineError::TypeMismatch));
}

#[test]
fn force_runs_a_delayed_body_and_rejects_anything_else() {
    let cm = unit_cost_model();
    let t = Term::Force(Box::new(Term::Delay(Box::new(cint(1)))));
    let o = evaluate(&t, budget(10, 10), &cm);
    assert_eq!(o.result, Ok(Value::Con(Const::Integer(1))));
    let t = Term::Force(Box::new(cint(1)));
    let o = evaluate(&t, budget(10, 10), &cm);
    assert_eq!(o.result, Err(MachineError::TypeMismatch));
}

#[test]
fn applying_a_non_function_is_a_type_mismatch() {
    let cm = unit_cost_model();
    let o = evaluate(&apply(cint(1), cint(2)), budget(10, 10), &cm);
    assert_eq!(o.result, Err(MachineError::TypeMismatch));
}

#[test]
fn unbound_variable_is_an_open_term_fault() {
    let cm = unit_cost_model();
    let o = evaluate(&Term::Var(0), budget(10, 10), &cm);
    assert_eq!(o.result, Err(MachineError::OpenTermEvaluated));
    // An index that escapes the binders in scope faults the same way.
    let o = evaluate(&apply(lam(Term::Var(1)), cint(7)), budget(10, 10), &cm);
    assert_eq!(o.result, Err(MachineError::OpenTermEvaluated));
}

#[test]
fn budget_is_the_sole_termination_guarantee() {
    let cm = unit_cost_model();
    // The self-application loop never reaches a value: the budget stops it.
    let half = || lam(apply(Term::Var(0), Term::Var(0)));
    let omega = apply(half(), half());
    let o = evaluate(&omega, budget(50, 1000), &cm);
    assert_eq!(o.result, Err(MachineError::OutOfBudget(Dimension::Cpu)));
    assert_eq!(o.remaining.cpu, 0);
}

#[test]
fn partial_builtin_application_is_a_value() {
    let cm = unit_cost_model();
    let t = apply(Term::Builtin(BuiltinId::AddInteger), cint(1));
    let o = evaluate(&t, budget(10, 10), &cm);
    assert!(matches!(o.result, Ok(Value::BuiltinApp { .. })));
}

#[test]
fn consumed_budget_never_exceeds_the_ceiling() {
    let cm = unit_cost_model();
    let terms = [
        cint(1),
        apply(lam(Term::Var(0)), cint(7)),
        call2(BuiltinId::MultiplyInteger, cint(6), cint(7)),
        Term::Error,
    ];
    for t in terms {
        for c in [0u64, 1, 2, 3, 10] {
            let o = evaluate(&t, budget(c, c), &cm);
            assert!(o.remaining.cpu <= c && o.remaining.mem <= c);
        }
    }
}
