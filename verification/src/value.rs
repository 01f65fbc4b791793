//! The machine's runtime result domain: constants, closures, delayed
//! closures, and partially applied builtins.  Values are produced only by
//! the reduction machine, never constructed externally.
//!
//! Environments are ordered sequences of values, extended (never mutated
//! in place) on each lambda entry; the list representation shares no
//! mutable state, so each closure owns the bindings it captured.

use vstd::prelude::*;

use crate::term::{BuiltinId, Const, Term};

verus! {

/// An ordered list of values.  Used both as an environment (most recent
/// binding first, so de Bruijn index `i` is element `i`) and as a
/// builtin's accumulated arguments (most recently supplied first).
#[derive(Debug, PartialEq, Eq)]
pub enum ValueList {
    Nil,
    Cons(Box<Value>, Box<ValueList>),
}

/// A runtime value.
#[derive(Debug, PartialEq, Eq)]
pub enum Value {
    /// An evaluated constant.
    Con(Const),
    /// A lambda body together with the environment it was built in.
    Closure { env: ValueList, body: Term },
    /// A delayed body together with its environment; re-entered on force.
    Delayed { env: ValueList, body: Term },
    /// A builtin still accumulating arguments (most recent first).
    BuiltinApp { id: BuiltinId, args: ValueList },
}

/// Structural deep copy of a value.  Copying is how environments are
/// shared between closures: the original is never mutated.
pub fn value_dup(v: &Value) -> (r: Value)
    ensures
        r == *v,
    decreases *v,
{
    match v {
        Value::Con(c) => Value::Con(*c),
        Value::Closure { env, body } => Value::Closure {
            env: list_dup(env),
            body: crate::term::term_dup(body),
        },
        Value::Delayed { env, body } => Value::Delayed {
            env: list_dup(env),
            body: crate::term::term_dup(body),
        },
        Value::BuiltinApp { id, args } => Value::BuiltinApp { id: *id, args: list_dup(args) },
    }
}

/// Structural deep copy of a value list.
pub fn list_dup(l: &ValueList) -> (r: ValueList)
    ensures
        r == *l,
    decreases *l,
{
    match l {
        ValueList::Nil => ValueList::Nil,
        ValueList::Cons(v, rest) => ValueList::Cons(
            Box::new(value_dup(v)),
            Box::new(list_dup(rest)),
        ),
    }
}

/// The value bound at de Bruijn index `n`, if the environment is deep
/// enough; `None` is the open-term fault.
pub open spec fn spec_env_lookup(env: ValueList, n: u64) -> Option<Value>
    decreases env,
{
    match env {
        ValueList::Nil => None,
        ValueList::Cons(v, rest) => if n == 0 {
            Some(*v)
        } else {
            spec_env_lookup(*rest, (n - 1) as u64)
        },
    }
}

/// Executable environment lookup; agrees with `spec_env_lookup`.
pub fn env_lookup(env: &ValueList, n: u64) -> (r: Option<&Value>)
    ensures
        match r {
            Some(v) => spec_env_lookup(*env, n) == Some(*v),
            None => spec_env_lookup(*env, n) is None,
        },
    decreases *env,
{
    match env {
        ValueList::Nil => None,
        ValueList::Cons(v, rest) => if n == 0 {
            Some(v)
        } else {
            env_lookup(rest, n - 1)
        },
    }
}

/// List length, capped at `u64::MAX`.  The machine only compares lengths
/// against builtin arities (at most 3), for which the cap is irrelevant.
pub open spec fn spec_len64(l: ValueList) -> u64
    decreases l,
{
    match l {
        ValueList::Nil => 0,
        ValueList::Cons(_, rest) => {
            let n = spec_len64(*rest);
            if n == u64::MAX {
                n
            } else {
                (n + 1) as u64
            }
        },
    }
}

/// Executable capped length; agrees with `spec_len64`.
pub fn len64(l: &ValueList) -> (n: u64)
    ensures
        n == spec_len64(*l),
    decreases *l,
{
    match l {
        ValueList::Nil => 0,
        ValueList::Cons(_, rest) => {
            let n = len64(rest);
            if n == u64::MAX {
                n
            } else {
                n + 1
            }
        },
    }
}

/// The size, in abstract machine words, a value contributes to a cost
/// formula.  In this model every constant, closure and partial builtin
/// occupies one word.
pub open spec fn spec_value_size(v: Value) -> u64 {
    1
}

/// Executable value size; agrees with `spec_value_size`.
pub fn value_size(v: &Value) -> (n: u64)
    ensures
        n == spec_value_size(*v),
{
    1
}

/// Sum of the sizes of the values in `l`, saturating at `u64::MAX`.
pub open spec fn spec_size_sum(l: ValueList) -> u64
    decreases l,
{
    match l {
        ValueList::Nil => 0,
        ValueList::Cons(v, rest) => crate::budget::spec_sat_add(
            spec_value_size(*v),
            spec_size_sum(*rest),
        ),
    }
}

/// Executable size sum; agrees with `spec_size_sum`.
pub fn size_sum(l: &ValueList) -> (n: u64)
    ensures
        n == spec_size_sum(*l),
    decreases *l,
{
    match l {
        ValueList::Nil => 0,
        ValueList::Cons(v, rest) => {
            let s = size_sum(rest);
            crate::budget::sat_add(value_size(v), s)
        },
    }
}

} // verus!
