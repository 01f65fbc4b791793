//! Parameter application: specializing a parameterized script by nesting
//! it under applications of the supplied parameter values, in order (the
//! first parameter becomes the innermost application), then normalizing
//! the result with the reduction machine under a caller-chosen safety
//! ceiling and reading the resulting value back into term form.
//!
//! Order is significant: a mis-ordered parameter list silently produces
//! a different, wrong specialized script, so callers must pre-validate
//! arity and order against the script's declared parameter schema.

use vstd::prelude::*;

use crate::budget::ExBudget;
use crate::cost::CostModel;
use crate::machine::{evaluate, spec_evaluate, MachineError};
use crate::term::{term_dup, term_height, Term};
use crate::value::{Value, ValueList};

verus! {

/// The term `Apply(Apply(...Apply(s, ps[0])..., ps[n-2]), ps[n-1])`:
/// `s` under one application node per parameter, first parameter
/// innermost.
pub open spec fn spec_build_applied(s: Term, ps: Seq<Term>) -> Term
    decreases ps.len(),
{
    if ps.len() == 0 {
        s
    } else {
        spec_build_applied(Term::Apply(Box::new(s), Box::new(ps[0])), ps.skip(1))
    }
}

/// Nesting under a concatenated parameter list is nesting under the
/// first batch, then under the second: the structural core of the
/// associativity of parameter application.
pub proof fn lemma_build_applied_append(s: Term, ps1: Seq<Term>, ps2: Seq<Term>)
    ensures
        spec_build_applied(s, ps1 + ps2) == spec_build_applied(spec_build_applied(s, ps1), ps2),
    decreases ps1.len(),
{
    if ps1.len() == 0 {
        assert(ps1 + ps2 =~= ps2);
    } else {
        let s2 = Term::Apply(Box::new(s), Box::new(ps1[0]));
        assert((ps1 + ps2).skip(1) =~= ps1.skip(1) + ps2);
        lemma_build_applied_append(s2, ps1.skip(1), ps2);
    }
}

/// Build the parameter applications without normalizing: the partial
/// step of parameter application.  The result is exactly
/// `spec_build_applied(script, params@)`.
pub fn apply_params_partial(script: Term, params: &Vec<Term>) -> (r: Term)
    ensures
        r == spec_build_applied(script, params@),
{
    let ghost ps = params@;
    proof {
        assert(ps.skip(0) =~= ps);
    }
    let mut acc = script;
    let mut i: usize = 0;
    while i < params.len()
        invariant
            i <= params.len(),
            params@ == ps,
            spec_build_applied(acc, ps.skip(i as int)) == spec_build_applied(script, ps),
        decreases params.len() - i,
    {
        proof {
            assert(ps.skip(i as int).skip(1) =~= ps.skip(i + 1));
        }
        acc = Term::Apply(Box::new(acc), Box::new(term_dup(&params[i])));
        i = i + 1;
    }
    proof {
        assert(ps.skip(params@.len() as int) =~= Seq::<Term>::empty());
    }
    acc
}

/// `k` plus one, saturating; binder depth bookkeeping for the readback.
/// (A term deep enough to saturate this counter cannot be built in
/// memory; the saturating form keeps the functions total.)
pub open spec fn spec_inc_depth(k: u64) -> u64 {
    if k == u64::MAX {
        k
    } else {
        (k + 1) as u64
    }
}

/// The term form of a machine value: constants read back as constant
/// terms; closures and delayed closures read back by substituting the
/// quoted form of each captured binding for the variables that point at
/// it; a partially applied builtin reads back as the builtin reference
/// under one application node per accumulated argument.
pub open spec fn spec_quote(v: Value) -> Term
    decreases v, 0nat,
{
    match v {
        Value::Con(c) => Term::Constant(c),
        Value::Closure { env, body } => Term::Lambda(Box::new(spec_subst_env(body, env, 1))),
        Value::Delayed { env, body } => Term::Delay(Box::new(spec_subst_env(body, env, 0))),
        Value::BuiltinApp { id, args } => spec_quote_builtin(id, args),
    }
}

/// The accumulated arguments of a partial builtin application, read back
/// as application nodes (the first-supplied argument innermost).
pub open spec fn spec_quote_builtin(id: crate::term::BuiltinId, args: ValueList) -> Term
    decreases args, 0nat,
{
    match args {
        ValueList::Nil => Term::Builtin(id),
        ValueList::Cons(v, rest) => Term::Apply(
            Box::new(spec_quote_builtin(id, *rest)),
            Box::new(spec_quote(*v)),
        ),
    }
}

/// `t` with every variable that escapes `k` enclosing binders replaced
/// by the quoted form of its binding in `env`.  Quoted values are closed,
/// so no index shifting is needed.  A variable that escapes `env` too is
/// left as it stands: the term was open to begin with, and stays
/// detectably open.
pub open spec fn spec_subst_env(t: Term, env: ValueList, k: u64) -> Term
    decreases env, term_height(t) + 1,
{
    match t {
        Term::Constant(c) => Term::Constant(c),
        Term::Var(i) => if i < k {
            Term::Var(i)
        } else {
            match spec_env_quote(env, (i - k) as u64) {
                Some(tm) => tm,
                None => Term::Var(i),
            }
        },
        Term::Lambda(b) => Term::Lambda(Box::new(spec_subst_env(*b, env, spec_inc_depth(k)))),
        Term::Apply(f, a) => Term::Apply(
            Box::new(spec_subst_env(*f, env, k)),
            Box::new(spec_subst_env(*a, env, k)),
        ),
        Term::Delay(b) => Term::Delay(Box::new(spec_subst_env(*b, env, k))),
        Term::Force(b) => Term::Force(Box::new(spec_subst_env(*b, env, k))),
        Term::Builtin(id) => Term::Builtin(id),
        Term::Error => Term::Error,
    }
}

/// The quoted form of the binding at index `j` of `env`, if `env` is
/// deep enough.
pub open spec fn spec_env_quote(env: ValueList, j: u64) -> Option<Term>
    decreases env, 0nat,
{
    match env {
        ValueList::Nil => None,
        ValueList::Cons(v, rest) => if j == 0 {
            Some(spec_quote(*v))
        } else {
            spec_env_quote(*rest, (j - 1) as u64)
        },
    }
}

/// Executable readback of a value; agrees with `spec_quote`.
pub fn quote(v: &Value) -> (r: Term)
    ensures
        r == spec_quote(*v),
    decreases *v, 0nat,
{
    match v {
        Value::Con(c) => Term::Constant(*c),
        Value::Closure { env, body } => Term::Lambda(Box::new(subst_env(body, env, 1))),
        Value::Delayed { env, body } => Term::Delay(Box::new(subst_env(body, env, 0))),
        Value::BuiltinApp { id, args } => quote_builtin(*id, args),
    }
}

/// Executable readback of accumulated builtin arguments; agrees with
/// `spec_quote_builtin`.
fn quote_builtin(id: crate::term::BuiltinId, args: &ValueList) -> (r: Term)
    ensures
        r == spec_quote_builtin(id, *args),
    decreases *args, 0nat,
{
    match args {
        ValueList::Nil => Term::Builtin(id),
        ValueList::Cons(v, rest) => Term::Apply(
            Box::new(quote_builtin(id, rest)),
            Box::new(quote(v)),
        ),
    }
}

/// Executable environment substitution; agrees with `spec_subst_env`.
fn subst_env(t: &Term, env: &ValueList, k: u64) -> (r: Term)
    ensures
        r == spec_subst_env(*t, *env, k),
    decreases *env, term_height(*t) + 1,
{
    match t {
        Term::Constant(c) => Term::Constant(*c),
        Term::Var(i) => if *i < k {
            Term::Var(*i)
        } else {
            match env_quote(env, *i - k) {
                Some(tm) => tm,
                None => Term::Var(*i),
            }
        },
        Term::Lambda(b) => {
            let k2 = if k == u64::MAX {
                k
            } else {
                k + 1
            };
            Term::Lambda(Box::new(subst_env(b, env, k2)))
        },
        Term::Apply(f, a) => Term::Apply(
            Box::new(subst_env(f, env, k)),
            Box::new(subst_env(a, env, k)),
        ),
        Term::Delay(b) => Term::Delay(Box::new(subst_env(b, env, k))),
        Term::Force(b) => Term::Force(Box::new(subst_env(b, env, k))),
        Term::Builtin(id) => Term::Builtin(*id),
        Term::Error => Term::Error,
    }
}

/// Executable quoted-environment lookup; agrees with `spec_env_quote`.
fn env_quote(env: &ValueList, j: u64) -> (r: Option<Term>)
    ensures
        r == spec_env_quote(*env, j),
    decreases *env, 0nat,
{
    match env {
        ValueList::Nil => None,
        ValueList::Cons(v, rest) => if j == 0 {
            Some(quote(v))
        } else {
            env_quote(rest, j - 1)
        },
    }
}

/// What full parameter application yields: the nested applications,
/// normalized by one machine run under `ceiling`, read back as a term;
/// or the machine's error if the script errors during normalization or
/// normalization does not finish within the safety ceiling.
pub open spec fn spec_apply_params(
    s: Term,
    ps: Seq<Term>,
    cm: CostModel,
    ceiling: ExBudget,
) -> Result<Term, MachineError> {
    match spec_evaluate(spec_build_applied(s, ps), ceiling, cm).result {
        Ok(v) => Ok(spec_quote(v)),
        Err(e) => Err(e),
    }
}

/// Specialize `script` by the ordered `params` (first parameter bound to
/// the script's first declared parameter), then normalize with the
/// reduction machine under the effectively-unbounded `safety_ceiling`
/// and read the value back into term form.
pub fn apply_params(
    script: Term,
    params: &Vec<Term>,
    cm: &CostModel,
    safety_ceiling: ExBudget,
) -> (r: Result<Term, MachineError>)
    requires
        cm.wf(),
    ensures
        r == spec_apply_params(script, params@, *cm, safety_ceiling),
{
    let built = apply_params_partial(script, params);
    let o = evaluate(&built, safety_ceiling, cm);
    match o.result {
        Ok(v) => Ok(quote(&v)),
        Err(e) => Err(e),
    }
}

/// Parameter application is associative: applying a concatenated
/// parameter list in one call yields exactly what first building the
/// partial application for the leading batch (`apply_params_partial`)
/// and then applying the trailing batch yields, with normalization
/// applied after the final step in both readings.
pub proof fn lemma_apply_params_associative(
    s: Term,
    ps1: Seq<Term>,
    ps2: Seq<Term>,
    cm: CostModel,
    ceiling: ExBudget,
)
    ensures
        (spec_apply_params(s, ps1 + ps2, cm, ceiling) == spec_apply_params(
            spec_build_applied(s, ps1),
            ps2,
            cm,
            ceiling,
        )),
{
    lemma_build_applied_append(s, ps1, ps2);
}

/// The number of leading lambda binders of `t`, capped at `u64::MAX`: a
/// specialized script with no remaining unbound parameter slots has
/// none.
pub open spec fn spec_leading_params(t: Term) -> u64
    decreases t,
{
    match t {
        Term::Lambda(b) => spec_inc_depth(spec_leading_params(*b)),
        _ => 0,
    }
}

/// Executable count of remaining parameter slots (leading lambda
/// binders); agrees with `spec_leading_params`.
pub fn leading_params(t: &Term) -> (n: u64)
    ensures
        n == spec_leading_params(*t),
    decreases *t,
{
    match t {
        Term::Lambda(b) => {
            let m = leading_params(b);
            if m == u64::MAX {
                m
            } else {
                m + 1
            }
        },
        _ => 0,
    }
}

} // verus!
