//! A deterministic, budget-metered evaluation engine for an untyped
//! functional bytecode, as used for phase-two validation of ledger
//! transactions: a reduction machine with exact cost accounting, a
//! parameter-application (term specialization) routine, and a validation
//! driver that evaluates every redeemer of a transaction in canonical
//! order.

pub mod budget;
pub mod cost;
pub mod driver;
pub mod machine;
pub mod params;
pub mod term;
pub mod value;
