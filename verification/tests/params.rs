use uplc_engine::budget::ExBudget;
use uplc_engine::cost::CostModel;
use uplc_engine::machine::{evaluate, MachineError};
use uplc_engine::params::{apply_params, apply_params_partial, leading_params};
use uplc_engine::term::{BuiltinId, Const, Term};
use uplc_engine::value::Value;

fn budget(cpu: u64, mem: u64) -> ExBudget {
    ExBudget { cpu, mem }
}

fn unit_cost_model() -> CostModel {
    CostModel::uniform(budget(1, 1))
}

fn big_ceiling() -> ExBudget {
    budget(1_000_000, 1_000_000)
}

fn cint(i: i64) -> Term {
    Term::Constant(Const::Integer(i))
}

fn apply_t(f: Term, a: Term) -> Term {
    Term::Apply(Box::new(f), Box::new(a))
}

fn lam(body: Term) -> Term {
    Term::Lambda(Box::new(body))
}

/// A script of two declared parameters that adds them.
fn add_two_params_script() -> Term {
    lam(lam(apply_t(
        apply_t(Term::Builtin(BuiltinId::AddInteger), Term::Var(1)),
        Term::Var(0),
    )))
}

#[test]
fn partial_application_builds_nested_applications_in_order() {
    let s = add_two_params_script();
    let built = apply_params_partial(add_two_params_script(), &vec![cint(2), cint(3)]);
    // First parameter innermost.
    assert_eq!(built, apply_t(apply_t(s, cint(2)), cint(3)));
}

#[test]
fn partial_application_of_no_params_is_the_script_itself() {
    let built = apply_params_partial(add_two_params_script(), &vec![]);
    assert_eq!(built, add_two_params_script());
}

#[test]
fn full_application_normalizes_to_a_term_with_no_parameter_slots() {
    let cm = unit_cost_model();
    let r = apply_params(add_two_params_script(), &vec![cint(2), cint(3)], &cm, big_ceiling());
    let t = r.expect("two of two parameters applied");
    assert_eq!(t, cint(5));
    assert_eq!(leading_params(&t), 0);
}

#[test]
fn mismatched_parameter_count_leaves_a_slot_detectable_at_evaluation() {
    let cm = unit_cost_model();
    // One of two declared parameters: the specialized script still has
    // one unresolved parameter slot.
    let r = apply_params(add_two_params_script(), &vec![cint(2)], &cm, big_ceiling());
    let t = r.expect("one of two parameters applied");
    assert_eq!(leading_params(&t), 1);
    assert_eq!(
        t,
        lam(apply_t(apply_t(Term::Builtin(BuiltinId::AddInteger), cint(2)), Term::Var(0)))
    );
    // Treating it as fully specialized is caught by the machine: forcing
    // the leftover lambda is a type mismatch.
    let o = evaluate(&Term::Force(Box::new(t)), big_ceiling(), &cm);
    assert_eq!(o.result, Err(MachineError::TypeMismatch));
}

#[test]
fn application_is_associative_across_batches() {
    let cm = unit_cost_model();
    let all_at_once =
        apply_params(add_two_params_script(), &vec![cint(2), cint(3)], &cm, big_ceiling());
    let first_batch = apply_params_partial(add_two_params_script(), &vec![cint(2)]);
    let stepwise = apply_params(first_batch, &vec![cint(3)], &cm, big_ceiling());
    assert_eq!(all_at_once, stepwise);
}

#[test]
fn parameter_order_is_significant() {
    let cm = unit_cost_model();
    // A script that subtracts its second parameter from its first.
    let s = || {
        lam(lam(apply_t(
            apply_t(Term::Builtin(BuiltinId::SubtractInteger), Term::Var(1)),
            Term::Var(0),
        )))
    };
    let r1 = apply_params(s(), &vec![cint(10), cint(4)], &cm, big_ceiling());
    let r2 = apply_params(s(), &vec![cint(4), cint(10)], &cm, big_ceiling());
    assert_eq!(r1, Ok(cint(6)));
    assert_eq!(r2, Ok(cint(-6)));
}

#[test]
fn script_error_during_normalization_is_reported() {
    let cm = unit_cost_model();
    let s = lam(Term::Error);
    let r = apply_params(s, &vec![cint(1)], &cm, big_ceiling());
    assert_eq!(r, Err(MachineError::ScriptError));
}

#[test]
fn normalization_that_exceeds_the_safety_ceiling_is_reported() {
    let cm = unit_cost_model();
    let half = || lam(apply_t(Term::Var(0), Term::Var(0)));
    let r = apply_params(half(), &vec![half()], &cm, budget(100, 100));
    assert!(matches!(r, Err(MachineError::OutOfBudget(_))));
}

#[test]
fn delayed_bodies_read_back_with_their_captured_bindings() {
    let cm = unit_cost_model();
    // \x -> delay x, applied to 9: the delayed body keeps the binding.
    let s = lam(Term::Delay(Box::new(Term::Var(0))));
    let r = apply_params(s, &vec![cint(9)], &cm, big_ceiling());
    let t = r.expect("normalization succeeds");
    assert_eq!(t, Term::Delay(Box::new(cint(9))));
    // Forcing the read-back term yields the captured constant.
    let o = evaluate(&Term::Force(Box::new(t)), big_ceiling(), &cm);
    assert_eq!(o.result, Ok(Value::Con(Const::Integer(9))));
}

#[test]
fn partial_builtin_values_read_back_as_applications() {
    let cm = unit_cost_model();
    // \x -> addInteger x, applied to 1, normalizes to the builtin with
    // one argument already applied.
    let s = lam(apply_t(Term::Builtin(BuiltinId::AddInteger), Term::Var(0)));
    let r = apply_params(s, &vec![cint(1)], &cm, big_ceiling());
    let t = r.expect("normalization succeeds");
    assert_eq!(t, apply_t(Term::Builtin(BuiltinId::AddInteger), cint(1)));
    // Applying the read-back term to a second argument completes the call.
    let o = evaluate(&apply_t(t, cint(41)), big_ceiling(), &cm);
    assert_eq!(o.result, Ok(Value::Con(Const::Integer(42))));
}
