//! The reduction machine: reduces a term to a value or fails, consulting
//! the cost model at every step and debiting the budget, which is the
//! sole termination guarantee for non-terminating scripts.
//!
//! The machine's behaviour is pinned down exactly by the specification
//! functions `spec_eval` / `spec_apply` / `spec_evaluate`: the executable
//! evaluator is proved to return precisely what they define, so two
//! evaluations of the same (term, budget, cost model) triple are
//! identical by construction.
//!
//! The specification is indexed by a ghost fuel that bounds re-entries
//! into closure and delayed bodies.  Every such re-entry happens strictly
//! after a successful debit of at least one CPU unit (the cost model's
//! well-formedness guarantees positive step costs), so a fuel of
//! `budget.cpu` can never run out before the budget does; the executable
//! evaluator carries that argument through and therefore never reaches
//! the fuel-exhaustion case.

use vstd::prelude::*;

use crate::budget::{debit, spec_debit, Dimension, ExBudget};
use crate::cost::{call_cost, spec_call_cost, CostModel};
use crate::term::{
    builtin_arity, spec_builtin_arity, term_dup, term_height, BuiltinId, Const, Term,
};
use crate::value::{
    env_lookup, len64, list_dup, size_sum, spec_env_lookup, spec_len64, spec_size_sum, value_dup,
    Value, ValueList,
};

verus! {

/// Everything that can stop an evaluation short of a value.
/// `ScriptError` is a script-authored failure (a normal validation
/// rejection); `OpenTermEvaluated` is an internal invariant violation;
/// `TypeMismatch` covers forcing a non-delayed value, applying a
/// non-function, and builtin runtime faults (wrong operand kind, or an
/// integer result outside the 64-bit range).
#[derive(Clone, Copy, Debug, PartialEq, Eq, Structural)]
pub enum MachineError {
    OutOfBudget(Dimension),
    TypeMismatch,
    OpenTermEvaluated,
    ScriptError,
}

/// What one evaluation call returns: the value or the error, and the
/// budget left at the moment it stopped.
#[derive(Debug, PartialEq, Eq)]
pub struct EvalOutcome {
    pub result: Result<Value, MachineError>,
    pub remaining: ExBudget,
}

/// The two integer operands of a saturated arity-2 integer builtin, in
/// application order, if the argument list has exactly that shape.
pub open spec fn spec_int_args2(args: ValueList) -> Option<(i64, i64)> {
    match args {
        ValueList::Cons(y, rest) => match *rest {
            ValueList::Cons(x, rest2) => match *rest2 {
                ValueList::Nil => match (*x, *y) {
                    (Value::Con(Const::Integer(a)), Value::Con(Const::Integer(b))) => Some(
                        (a, b),
                    ),
                    _ => None,
                },
                _ => None,
            },
            _ => None,
        },
        _ => None,
    }
}

/// What executing a saturated builtin returns.  `args` holds the
/// accumulated arguments most recent first.  A builtin never crashes the
/// machine: an operand of the wrong kind, an argument list of the wrong
/// shape, or an integer result outside the 64-bit range all surface as
/// `TypeMismatch`.
pub open spec fn spec_run_builtin(id: BuiltinId, args: ValueList) -> Result<Value, MachineError> {
    match id {
        BuiltinId::AddInteger => match spec_int_args2(args) {
            Some((a, b)) => if i64::MIN <= a + b <= i64::MAX {
                Ok(Value::Con(Const::Integer((a + b) as i64)))
            } else {
                Err(MachineError::TypeMismatch)
            },
            None => Err(MachineError::TypeMismatch),
        },
        BuiltinId::SubtractInteger => match spec_int_args2(args) {
            Some((a, b)) => if i64::MIN <= a - b <= i64::MAX {
                Ok(Value::Con(Const::Integer((a - b) as i64)))
            } else {
                Err(MachineError::TypeMismatch)
            },
            None => Err(MachineError::TypeMismatch),
        },
        BuiltinId::MultiplyInteger => match spec_int_args2(args) {
            Some((a, b)) => if i64::MIN <= a * b <= i64::MAX {
                Ok(Value::Con(Const::Integer((a * b) as i64)))
            } else {
                Err(MachineError::TypeMismatch)
            },
            None => Err(MachineError::TypeMismatch),
        },
        BuiltinId::EqualsInteger => match spec_int_args2(args) {
            Some((a, b)) => Ok(Value::Con(Const::Boolean(a == b))),
            None => Err(MachineError::TypeMismatch),
        },
        BuiltinId::LessThanInteger => match spec_int_args2(args) {
            Some((a, b)) => Ok(Value::Con(Const::Boolean(a < b))),
            None => Err(MachineError::TypeMismatch),
        },
        BuiltinId::IfThenElse => match args {
            ValueList::Cons(alt, rest) => match *rest {
                ValueList::Cons(cons, rest2) => match *rest2 {
                    ValueList::Cons(cond, rest3) => match *rest3 {
                        ValueList::Nil => match *cond {
                            Value::Con(Const::Boolean(c)) => if c {
                                Ok(*cons)
                            } else {
                                Ok(*alt)
                            },
                            _ => Err(MachineError::TypeMismatch),
                        },
                        _ => Err(MachineError::TypeMismatch),
                    },
                    _ => Err(MachineError::TypeMismatch),
                },
                _ => Err(MachineError::TypeMismatch),
            },
            _ => Err(MachineError::TypeMismatch),
        },
    }
}

/// Executable builtin dispatch; agrees with `spec_run_builtin`.
fn run_builtin(id: BuiltinId, args: ValueList) -> (r: Result<Value, MachineError>)
    ensures
        r == spec_run_builtin(id, args),
{
    match id {
        BuiltinId::AddInteger => match int_args2(args) {
            Some((a, b)) => match a.checked_add(b) {
                Some(s) => Ok(Value::Con(Const::Integer(s))),
                None => Err(MachineError::TypeMismatch),
            },
            None => Err(MachineError::TypeMismatch),
        },
        BuiltinId::SubtractInteger => match int_args2(args) {
            Some((a, b)) => match a.checked_sub(b) {
                Some(s) => Ok(Value::Con(Const::Integer(s))),
                None => Err(MachineError::TypeMismatch),
            },
            None => Err(MachineError::TypeMismatch),
        },
        BuiltinId::MultiplyInteger => match int_args2(args) {
            Some((a, b)) => match a.checked_mul(b) {
                Some(s) => Ok(Value::Con(Const::Integer(s))),
                None => Err(MachineError::TypeMismatch),
            },
            None => Err(MachineError::TypeMismatch),
        },
        BuiltinId::EqualsInteger => match int_args2(args) {
            Some((a, b)) => Ok(Value::Con(Const::Boolean(a == b))),
            None => Err(MachineError::TypeMismatch),
        },
        BuiltinId::LessThanInteger => match int_args2(args) {
            Some((a, b)) => Ok(Value::Con(Const::Boolean(a < b))),
            None => Err(MachineError::TypeMismatch),
        },
        BuiltinId::IfThenElse => match args {
            ValueList::Cons(alt, rest) => match *rest {
                ValueList::Cons(cons, rest2) => match *rest2 {
                    ValueList::Cons(cond, rest3) => match *rest3 {
                        ValueList::Nil => match *cond {
                            Value::Con(Const::Boolean(c)) => if c {
                                Ok(*cons)
                            } else {
                                Ok(*alt)
                            },
                            _ => Err(MachineError::TypeMismatch),
                        },
                        _ => Err(MachineError::TypeMismatch),
                    },
                    _ => Err(MachineError::TypeMismatch),
                },
                _ => Err(MachineError::TypeMismatch),
            },
            _ => Err(MachineError::TypeMismatch),
        },
    }
}

/// Executable extraction of two integer operands; agrees with
/// `spec_int_args2`.
fn int_args2(args: ValueList) -> (r: Option<(i64, i64)>)
    ensures
        r == spec_int_args2(args),
{
    match args {
        ValueList::Cons(y, rest) => match *rest {
            ValueList::Cons(x, rest2) => match *rest2 {
                ValueList::Nil => match (*x, *y) {
                    (Value::Con(Const::Integer(a)), Value::Con(Const::Integer(b))) => Some(
                        (a, b),
                    ),
                    _ => None,
                },
                _ => None,
            },
            _ => None,
        },
        _ => None,
    }
}

/// What applying value `vf` to value `va` under budget `b` yields.
/// Applying a closure re-enters its body (one fuel unit); applying a
/// builtin accumulates the argument and, once the arity is reached,
/// charges the size-dependent call cost and executes; applying a
/// constant or a delayed value is a type mismatch.
pub open spec fn spec_apply(
    vf: Value,
    va: Value,
    b: ExBudget,
    cm: CostModel,
    fuel: nat,
) -> EvalOutcome
    decreases fuel, 0nat,
{
    match vf {
        Value::Con(_) => EvalOutcome { result: Err(MachineError::TypeMismatch), remaining: b },
        Value::Delayed { .. } => EvalOutcome {
            result: Err(MachineError::TypeMismatch),
            remaining: b,
        },
        Value::Closure { env, body } => if fuel == 0 {
            EvalOutcome {
                result: Err(MachineError::OutOfBudget(Dimension::Cpu)),
                remaining: b,
            }
        } else {
            spec_eval(
                body,
                ValueList::Cons(Box::new(va), Box::new(env)),
                b,
                cm,
                (fuel - 1) as nat,
            )
        },
        Value::BuiltinApp { id, args } => {
            let args2 = ValueList::Cons(Box::new(va), Box::new(args));
            if spec_len64(args2) >= spec_builtin_arity(id) {
                let cost = spec_call_cost(cm, id, spec_size_sum(args2));
                match spec_debit(b, cost) {
                    Err(d) => EvalOutcome {
                        result: Err(MachineError::OutOfBudget(d)),
                        remaining: b,
                    },
                    Ok(b2) => EvalOutcome { result: spec_run_builtin(id, args2), remaining: b2 },
                }
            } else {
                EvalOutcome { result: Ok(Value::BuiltinApp { id, args: args2 }), remaining: b }
            }
        },
    }
}

/// What evaluating term `t` in environment `env` under budget `b` yields.
/// Constants, lambdas, delays and builtin references become values for
/// free; a variable lookup, a beta-reduction and a forcing step each
/// debit their step cost before doing any work, and fail atomically with
/// `OutOfBudget` if the debit does not fit.
pub open spec fn spec_eval(
    t: Term,
    env: ValueList,
    b: ExBudget,
    cm: CostModel,
    fuel: nat,
) -> EvalOutcome
    decreases fuel, term_height(t),
{
    match t {
        Term::Constant(c) => EvalOutcome { result: Ok(Value::Con(c)), remaining: b },
        Term::Var(i) => match spec_debit(b, cm.var_step) {
            Err(d) => EvalOutcome { result: Err(MachineError::OutOfBudget(d)), remaining: b },
            Ok(b1) => match spec_env_lookup(env, i) {
                Some(v) => EvalOutcome { result: Ok(v), remaining: b1 },
                None => EvalOutcome {
                    result: Err(MachineError::OpenTermEvaluated),
                    remaining: b1,
                },
            },
        },
        Term::Lambda(body) => EvalOutcome {
            result: Ok(Value::Closure { env, body: *body }),
            remaining: b,
        },
        Term::Delay(body) => EvalOutcome {
            result: Ok(Value::Delayed { env, body: *body }),
            remaining: b,
        },
        Term::Builtin(id) => EvalOutcome {
            result: Ok(Value::BuiltinApp { id, args: ValueList::Nil }),
            remaining: b,
        },
        Term::Error => EvalOutcome { result: Err(MachineError::ScriptError), remaining: b },
        Term::Force(inner) => match spec_debit(b, cm.force_step) {
            Err(d) => EvalOutcome { result: Err(MachineError::OutOfBudget(d)), remaining: b },
            Ok(b1) => {
                let o = spec_eval(*inner, env, b1, cm, fuel);
                match o.result {
                    Err(_) => o,
                    Ok(v) => match v {
                        Value::Delayed { env: env2, body } => if fuel == 0 {
                            EvalOutcome {
                                result: Err(MachineError::OutOfBudget(Dimension::Cpu)),
                                remaining: o.remaining,
                            }
                        } else {
                            spec_eval(body, env2, o.remaining, cm, (fuel - 1) as nat)
                        },
                        _ => EvalOutcome {
                            result: Err(MachineError::TypeMismatch),
                            remaining: o.remaining,
                        },
                    },
                }
            },
        },
        Term::Apply(f, a) => match spec_debit(b, cm.apply_step) {
            Err(d) => EvalOutcome { result: Err(MachineError::OutOfBudget(d)), remaining: b },
            Ok(b1) => {
                let of = spec_eval(*f, env, b1, cm, fuel);
                match of.result {
                    Err(_) => of,
                    Ok(vf) => {
                        let oa = spec_eval(*a, env, of.remaining, cm, fuel);
                        match oa.result {
                            Err(_) => oa,
                            Ok(va) => spec_apply(vf, va, oa.remaining, cm, fuel),
                        }
                    },
                }
            },
        },
    }
}

/// What a whole evaluation call yields: the startup cost is debited
/// first (so a zero ceiling fails immediately, whatever the term), then
/// the term is reduced in the empty environment.
pub open spec fn spec_evaluate(t: Term, ceiling: ExBudget, cm: CostModel) -> EvalOutcome {
    match spec_debit(ceiling, cm.startup) {
        Err(d) => EvalOutcome { result: Err(MachineError::OutOfBudget(d)), remaining: ceiling },
        Ok(b1) => spec_eval(t, ValueList::Nil, b1, cm, b1.cpu as nat),
    }
}

/// The executable reduction of one term in one environment.  The ghost
/// fuel bounds body re-entries; `fuel >= b.cpu` is maintained because
/// every re-entry follows a successful debit of at least one CPU unit.
fn eval_term(
    t: &Term,
    env: &ValueList,
    b: ExBudget,
    cm: &CostModel,
    Ghost(fuel): Ghost<nat>,
) -> (o: EvalOutcome)
    requires
        cm.wf(),
        fuel >= b.cpu,
    ensures
        o == spec_eval(*t, *env, b, *cm, fuel),
        b.spec_covers(o.remaining),
    decreases fuel, term_height(*t),
{
    match t {
        Term::Constant(c) => EvalOutcome { result: Ok(Value::Con(*c)), remaining: b },
        Term::Var(i) => match debit(b, cm.var_step) {
            Err(d) => EvalOutcome { result: Err(MachineError::OutOfBudget(d)), remaining: b },
            Ok(b1) => match env_lookup(env, *i) {
                Some(v) => EvalOutcome { result: Ok(value_dup(v)), remaining: b1 },
                None => EvalOutcome {
                    result: Err(MachineError::OpenTermEvaluated),
                    remaining: b1,
                },
            },
        },
        Term::Lambda(body) => EvalOutcome {
            result: Ok(Value::Closure { env: list_dup(env), body: term_dup(body) }),
            remaining: b,
        },
        Term::Delay(body) => EvalOutcome {
            result: Ok(Value::Delayed { env: list_dup(env), body: term_dup(body) }),
            remaining: b,
        },
        Term::Builtin(id) => EvalOutcome {
            result: Ok(Value::BuiltinApp { id: *id, args: ValueList::Nil }),
            remaining: b,
        },
        Term::Error => EvalOutcome { result: Err(MachineError::ScriptError), remaining: b },
        Term::Force(inner) => match debit(b, cm.force_step) {
            Err(d) => EvalOutcome { result: Err(MachineError::OutOfBudget(d)), remaining: b },
            Ok(b1) => {
                let o = eval_term(inner, env, b1, cm, Ghost(fuel));
                let EvalOutcome { result: r, remaining: b2 } = o;
                match r {
                    Err(e) => EvalOutcome { result: Err(e), remaining: b2 },
                    Ok(v) => match v {
                        Value::Delayed { env: env2, body } => eval_term(
                            &body,
                            &env2,
                            b2,
                            cm,
                            Ghost((fuel - 1) as nat),
                        ),
                        _ => EvalOutcome {
                            result: Err(MachineError::TypeMismatch),
                            remaining: b2,
                        },
                    },
                }
            },
        },
        Term::Apply(f, a) => match debit(b, cm.apply_step) {
            Err(d) => EvalOutcome { result: Err(MachineError::OutOfBudget(d)), remaining: b },
            Ok(b1) => {
                let of = eval_term(f, env, b1, cm, Ghost(fuel));
                let EvalOutcome { result: rf, remaining: b2 } = of;
                match rf {
                    Err(e) => EvalOutcome { result: Err(e), remaining: b2 },
                    Ok(vf) => {
                        let oa = eval_term(a, env, b2, cm, Ghost(fuel));
                        let EvalOutcome { result: ra, remaining: b3 } = oa;
                        match ra {
                            Err(e) => EvalOutcome { result: Err(e), remaining: b3 },
                            Ok(va) => apply_value(vf, va, b3, cm, Ghost(fuel)),
                        }
                    },
                }
            },
        },
    }
}

/// The executable application of one value to another; agrees with
/// `spec_apply`.  Callers establish `fuel >= b.cpu + 1`, which holds
/// because the beta-reduction step cost was already debited.
fn apply_value(
    vf: Value,
    va: Value,
    b: ExBudget,
    cm: &CostModel,
    Ghost(fuel): Ghost<nat>,
) -> (o: EvalOutcome)
    requires
        cm.wf(),
        fuel >= b.cpu + 1,
    ensures
        o == spec_apply(vf, va, b, *cm, fuel),
        b.spec_covers(o.remaining),
    decreases fuel, 0nat,
{
    match vf {
        Value::Con(_) => EvalOutcome { result: Err(MachineError::TypeMismatch), remaining: b },
        Value::Delayed { .. } => EvalOutcome {
            result: Err(MachineError::TypeMismatch),
            remaining: b,
        },
        Value::Closure { env, body } => {
            let env2 = ValueList::Cons(Box::new(va), Box::new(env));
            eval_term(&body, &env2, b, cm, Ghost((fuel - 1) as nat))
        },
        Value::BuiltinApp { id, args } => {
            let args2 = ValueList::Cons(Box::new(va), Box::new(args));
            let n = len64(&args2);
            let ar = builtin_arity(id);
            if n >= ar {
                let cost = call_cost(cm, id, size_sum(&args2));
                match debit(b, cost) {
                    Err(d) => EvalOutcome {
                        result: Err(MachineError::OutOfBudget(d)),
                        remaining: b,
                    },
                    Ok(b2) => EvalOutcome { result: run_builtin(id, args2), remaining: b2 },
                }
            } else {
                EvalOutcome { result: Ok(Value::BuiltinApp { id, args: args2 }), remaining: b }
            }
        },
    }
}

/// Reduce `t` to a value or fail, under the budget `ceiling` and the
/// cost model `cm`.  The outcome — value or error, and the budget left —
/// is exactly `spec_evaluate(*t, ceiling, *cm)`: a pure function of the
/// inputs, so evaluation is deterministic.  The budget left never
/// exceeds the ceiling in either dimension; on failure no partial value
/// is returned.
pub fn evaluate(t: &Term, ceiling: ExBudget, cm: &CostModel) -> (o: EvalOutcome)
    requires
        cm.wf(),
    ensures
        o == spec_evaluate(*t, ceiling, *cm),
        ceiling.spec_covers(o.remaining),
{
    match debit(ceiling, cm.startup) {
        Err(d) => EvalOutcome { result: Err(MachineError::OutOfBudget(d)), remaining: ceiling },
        Ok(b1) => {
            let env = ValueList::Nil;
            eval_term(t, &env, b1, cm, Ghost(b1.cpu as nat))
        },
    }
}

/// Evaluating the same (term, budget, cost model) triple twice yields
/// identical value-or-error outcomes and identical remaining (hence
/// consumed) budgets: the outcome is a function of the inputs alone.
pub proof fn lemma_evaluate_deterministic(
    t: Term,
    ceiling: ExBudget,
    cm: CostModel,
    o1: EvalOutcome,
    o2: EvalOutcome,
)
    requires
        o1 == spec_evaluate(t, ceiling, cm),
        o2 == spec_evaluate(t, ceiling, cm),
    ensures
        o1 == o2,
{
}

/// With the budget ceiling at (0, 0), evaluation of any term fails
/// immediately with `OutOfBudget`: the startup debit is the first and
/// only budget check made, and nothing is consumed.
pub proof fn lemma_zero_ceiling_rejects(t: Term, cm: CostModel)
    requires
        cm.wf(),
    ensures
        (spec_evaluate(t, ExBudget { cpu: 0, mem: 0 }, cm).result == Result::<
            Value,
            MachineError,
        >::Err(MachineError::OutOfBudget(Dimension::Cpu))),
        (spec_evaluate(t, ExBudget { cpu: 0, mem: 0 }, cm).remaining == ExBudget {
            cpu: 0,
            mem: 0,
        }),
{
}

/// A term already in value form (a constant, lambda, delay or builtin
/// reference) evaluates successfully whenever the startup charge fits,
/// consuming exactly that charge.
pub open spec fn spec_is_value_form(t: Term) -> bool {
    match t {
        Term::Constant(_) => true,
        Term::Lambda(_) => true,
        Term::Delay(_) => true,
        Term::Builtin(_) => true,
        _ => false,
    }
}

/// Value-form terms succeed under any ceiling that covers the startup
/// charge, and consume exactly the startup charge.
pub proof fn lemma_value_form_succeeds(t: Term, ceiling: ExBudget, cm: CostModel)
    requires
        cm.wf(),
        spec_is_value_form(t),
        (spec_debit(ceiling, cm.startup) is Ok),
    ensures
        (spec_evaluate(t, ceiling, cm).result is Ok),
        (spec_evaluate(t, ceiling, cm).remaining == spec_debit(ceiling, cm.startup)->Ok_0),
{
}

/// A script term that is `Error` directly fails with `ScriptError`
/// whenever the startup charge fits (and with `OutOfBudget` otherwise),
/// consuming exactly the cost of reaching that node.
pub proof fn lemma_error_term_rejects(t: Term, ceiling: ExBudget, cm: CostModel)
    requires
        cm.wf(),
        t == Term::Error,
    ensures
        (spec_evaluate(t, ceiling, cm).result is Err),
        (spec_debit(ceiling, cm.startup) is Ok ==> spec_evaluate(t, ceiling, cm)
            == EvalOutcome {
            result: Err(MachineError::ScriptError),
            remaining: spec_debit(ceiling, cm.startup)->Ok_0,
        }),
{
}

} // verus!
