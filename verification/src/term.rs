//! The in-memory tree form of the bytecode: constants, variables
//! (de Bruijn indices), lambdas, applications, delay/force thunks,
//! builtin references, and the explicit error term.

use vstd::prelude::*;

verus! {

/// A typed literal carried by a `Term::Constant` node.  Integers are
/// 64-bit two's-complement; builtin arithmetic whose mathematical result
/// does not fit this range fails the evaluation rather than wrapping.
#[derive(Clone, Copy, Debug, PartialEq, Eq)]
pub enum Const {
    Integer(i64),
    Boolean(bool),
    Unit,
}

/// The closed, protocol-versioned set of builtin functions the machine
/// can dispatch on.  Each has a fixed arity (`builtin_arity`).
#[derive(Clone, Copy, Debug, PartialEq, Eq)]
pub enum BuiltinId {
    AddInteger,
    SubtractInteger,
    MultiplyInteger,
    EqualsInteger,
    LessThanInteger,
    IfThenElse,
}

/// An immutable bytecode term.  Variables are de Bruijn indices counting
/// enclosing lambda binders, innermost first; an index that does not
/// resolve inside the environment at evaluation time is a machine fault
/// (`OpenTermEvaluated`), never a silent default.
#[derive(Debug, PartialEq, Eq)]
pub enum Term {
    Constant(Const),
    Var(u64),
    Lambda(Box<Term>),
    Apply(Box<Term>, Box<Term>),
    Delay(Box<Term>),
    Force(Box<Term>),
    Builtin(BuiltinId),
    Error,
}

/// Number of arguments a builtin accumulates before it executes.
pub open spec fn spec_builtin_arity(id: BuiltinId) -> u64 {
    match id {
        BuiltinId::AddInteger => 2,
        BuiltinId::SubtractInteger => 2,
        BuiltinId::MultiplyInteger => 2,
        BuiltinId::EqualsInteger => 2,
        BuiltinId::LessThanInteger => 2,
        BuiltinId::IfThenElse => 3,
    }
}

/// Executable arity table; agrees with `spec_builtin_arity` exactly.
pub fn builtin_arity(id: BuiltinId) -> (n: u64)
    ensures
        n == spec_builtin_arity(id),
        1 <= n <= 3,
{
    match id {
        BuiltinId::AddInteger => 2,
        BuiltinId::SubtractInteger => 2,
        BuiltinId::MultiplyInteger => 2,
        BuiltinId::EqualsInteger => 2,
        BuiltinId::LessThanInteger => 2,
        BuiltinId::IfThenElse => 3,
    }
}

/// Structural deep copy of a term.
pub fn term_dup(t: &Term) -> (r: Term)
    ensures
        r == *t,
    decreases *t,
{
    match t {
        Term::Constant(c) => Term::Constant(*c),
        Term::Var(i) => Term::Var(*i),
        Term::Lambda(b) => Term::Lambda(Box::new(term_dup(b))),
        Term::Apply(f, a) => Term::Apply(Box::new(term_dup(f)), Box::new(term_dup(a))),
        Term::Delay(b) => Term::Delay(Box::new(term_dup(b))),
        Term::Force(b) => Term::Force(Box::new(term_dup(b))),
        Term::Builtin(id) => Term::Builtin(*id),
        Term::Error => Term::Error,
    }
}

/// Height of a term tree; every term has height at least 1, and every
/// proper subterm is strictly lower.  Serves as the structural part of
/// the machine's termination measure.
pub open spec fn term_height(t: Term) -> nat
    decreases t,
{
    match t {
        Term::Constant(_) => 1,
        Term::Var(_) => 1,
        Term::Lambda(b) => 1 + term_height(*b),
        Term::Apply(f, a) => 1 + if term_height(*f) >= term_height(*a) {
            term_height(*f)
        } else {
            term_height(*a)
        },
        Term::Delay(b) => 1 + term_height(*b),
        Term::Force(b) => 1 + term_height(*b),
        Term::Builtin(_) => 1,
        Term::Error => 1,
    }
}

} // verus!
