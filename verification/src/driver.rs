//! The validation driver: for every script-carrying redeemer of a
//! transaction, resolves the script by hash, builds the script context
//! term, runs the reduction machine under a fresh budget slice, and
//! collects per-redeemer outcomes in the transaction's canonical
//! redeemer order.
//!
//! Budget policy: the full ceiling is available to each redeemer (a
//! fresh slice per redeemer, not a shared pool).  Failure policy: a
//! redeemer whose script logically fails (script error, type mismatch,
//! exhausted budget) is recorded; in diagnostic mode the remaining
//! redeemers are still evaluated, in strict mode the call stops after
//! recording the failing redeemer.  A script hash with no matching
//! witness always aborts the whole call: the transaction itself is
//! malformed.

use vstd::prelude::*;

use crate::budget::{consumed, spec_consumed, spec_sat_add, spec_sat_mul, sat_add, sat_mul,
    ExBudget};
use crate::cost::CostModel;
use crate::machine::{evaluate, spec_evaluate};
use crate::term::{term_dup, Const, Term};

verus! {

/// Which kind of script-gated action a redeemer belongs to.
#[derive(Clone, Copy, Debug, PartialEq, Eq, Structural)]
pub enum RedeemerTag {
    Spend,
    Mint,
    Cert,
    Reward,
}

/// One redeemer of a transaction: the action it gates, its index within
/// that action kind, the hash naming the script it must satisfy, and its
/// decoded payload as a (closed) term.
#[derive(Debug, PartialEq, Eq)]
pub struct Redeemer {
    pub tag: RedeemerTag,
    pub index: u64,
    pub script_hash: u64,
    pub data: Term,
}

/// A script made available to the transaction, keyed by its hash:
/// either a witness carried by the transaction or a locking script of a
/// referenced UTXO.
#[derive(Debug, PartialEq, Eq)]
pub struct ScriptWitness {
    pub hash: u64,
    pub script: Term,
}

/// The decoded transaction summary the driver consumes: its redeemers in
/// canonical order and its validity interval in slots.  The driver never
/// mutates it.
#[derive(Debug, PartialEq, Eq)]
pub struct Transaction {
    pub redeemers: Vec<Redeemer>,
    pub valid_from_slot: u64,
    pub valid_to_slot: u64,
}

/// Pure conversion table from ledger slot numbers to wall-clock time.
#[derive(Clone, Copy, Debug, PartialEq, Eq, Structural)]
pub struct SlotConfig {
    pub zero_time: u64,
    pub zero_slot: u64,
    pub slot_length: u32,
}

/// The outcome recorded for one redeemer: which action it belongs to,
/// whether its script accepted, and the budget it consumed.
#[derive(Clone, Copy, Debug, PartialEq, Eq, Structural)]
pub struct RedeemerResult {
    pub tag: RedeemerTag,
    pub index: u64,
    pub success: bool,
    pub consumed: ExBudget,
}

/// A failure of the whole validation call, as opposed to one script's
/// logical rejection: the transaction itself is malformed.
/// `DecodingFailure` is surfaced unchanged on behalf of the external
/// collaborator that decodes wire bytes; the driver itself only ever
/// reports `ScriptResolutionFailure`.
#[derive(Clone, Copy, Debug, PartialEq, Eq, Structural)]
pub enum ValidationError {
    ScriptResolutionFailure,
    DecodingFailure,
}

/// Wall-clock time of a slot: `zero_time` plus the elapsed slots times
/// the slot length, saturating; slots before `zero_slot` clamp to
/// `zero_time`.
pub open spec fn spec_slot_to_time(cfg: SlotConfig, slot: u64) -> u64 {
    if slot <= cfg.zero_slot {
        cfg.zero_time
    } else {
        spec_sat_add(cfg.zero_time, spec_sat_mul((slot - cfg.zero_slot) as u64, cfg.slot_length as u64))
    }
}

/// Executable slot-to-time conversion; agrees with `spec_slot_to_time`.
pub fn slot_to_time(cfg: &SlotConfig, slot: u64) -> (t: u64)
    ensures
        t == spec_slot_to_time(*cfg, slot),
{
    if slot <= cfg.zero_slot {
        cfg.zero_time
    } else {
        sat_add(cfg.zero_time, sat_mul(slot - cfg.zero_slot, cfg.slot_length as u64))
    }
}

/// A wall-clock time as the integer constant a script sees, clamped to
/// the representable range.
pub open spec fn spec_time_as_integer(t: u64) -> i64 {
    if t > i64::MAX {
        i64::MAX
    } else {
        t as i64
    }
}

/// Executable time-to-integer clamp; agrees with `spec_time_as_integer`.
pub fn time_as_integer(t: u64) -> (r: i64)
    ensures
        r == spec_time_as_integer(t),
{
    if t > i64::MAX as u64 {
        i64::MAX
    } else {
        t as i64
    }
}

/// The script context term for one redeemer: the triple of the
/// redeemer's payload and the transaction's validity interval translated
/// to wall-clock times, encoded as the selector-taking lambda
/// `\sel -> sel data from to` so a script can project any component.
pub open spec fn spec_context_term(data: Term, from_time: u64, to_time: u64) -> Term {
    Term::Lambda(
        Box::new(
            Term::Apply(
                Box::new(
                    Term::Apply(
                        Box::new(Term::Apply(Box::new(Term::Var(0)), Box::new(data))),
                        Box::new(Term::Constant(Const::Integer(spec_time_as_integer(from_time)))),
                    ),
                ),
                Box::new(Term::Constant(Const::Integer(spec_time_as_integer(to_time)))),
            ),
        ),
    )
}

/// Executable context construction; agrees with `spec_context_term`.
/// The redeemer payload is expected to be a closed term (decoded data
/// constants are), since it is placed under the context's binder.
pub fn context_term(data: Term, from_time: u64, to_time: u64) -> (r: Term)
    ensures
        r == spec_context_term(data, from_time, to_time),
{
    Term::Lambda(
        Box::new(
            Term::Apply(
                Box::new(
                    Term::Apply(
                        Box::new(Term::Apply(Box::new(Term::Var(0)), Box::new(data))),
                        Box::new(Term::Constant(Const::Integer(time_as_integer(from_time)))),
                    ),
                ),
                Box::new(Term::Constant(Const::Integer(time_as_integer(to_time)))),
            ),
        ),
    )
}

/// The term the machine is invoked on for one redeemer: the resolved
/// script with the context applied as its final argument.
pub open spec fn spec_invocation_term(
    script: Term,
    data: Term,
    from_time: u64,
    to_time: u64,
) -> Term {
    Term::Apply(Box::new(script), Box::new(spec_context_term(data, from_time, to_time)))
}

/// The first script whose hash matches, searching witnesses in order.
pub open spec fn spec_lookup_script(ws: Seq<ScriptWitness>, h: u64) -> Option<Term>
    decreases ws.len(),
{
    if ws.len() == 0 {
        None
    } else if ws[0].hash == h {
        Some(ws[0].script)
    } else {
        spec_lookup_script(ws.skip(1), h)
    }
}

/// Executable script resolution; agrees with `spec_lookup_script`.
pub fn lookup_script(ws: &Vec<ScriptWitness>, h: u64) -> (r: Option<Term>)
    ensures
        r == spec_lookup_script(ws@, h),
{
    let ghost s = ws@;
    let mut i: usize = 0;
    proof {
        assert(s.skip(0) =~= s);
    }
    while i < ws.len()
        invariant
            i <= ws.len(),
            ws@ == s,
            spec_lookup_script(s.skip(i as int), h) == spec_lookup_script(s, h),
        decreases ws.len() - i,
    {
        proof {
            assert(s.skip(i as int)[0] == s[i as int]);
            assert(s.skip(i as int).skip(1) =~= s.skip(i + 1));
        }
        if ws[i].hash == h {
            return Some(term_dup(&ws[i].script));
        }
        i = i + 1;
    }
    None
}

/// The outcome for one redeemer whose script is `script`: the machine is
/// run on the invocation term under a fresh full budget slice, and the
/// success flag and consumed budget are recorded under the redeemer's
/// own tag and index.
pub open spec fn spec_redeemer_result(
    red: Redeemer,
    script: Term,
    cm: CostModel,
    ceiling: ExBudget,
    from_time: u64,
    to_time: u64,
) -> RedeemerResult {
    let o = spec_evaluate(
        spec_invocation_term(script, red.data, from_time, to_time),
        ceiling,
        cm,
    );
    RedeemerResult {
        tag: red.tag,
        index: red.index,
        success: o.result is Ok,
        consumed: spec_consumed(ceiling, o.remaining),
    }
}

/// The outcome for one redeemer with its script resolved against the
/// witness table; meaningful when resolution succeeds.
pub open spec fn spec_redeemer_outcome(
    red: Redeemer,
    ws: Seq<ScriptWitness>,
    cm: CostModel,
    ceiling: ExBudget,
    from_time: u64,
    to_time: u64,
) -> RedeemerResult {
    spec_redeemer_result(
        red,
        spec_lookup_script(ws, red.script_hash)->Some_0,
        cm,
        ceiling,
        from_time,
        to_time,
    )
}

/// What phase-two validation yields on the redeemers `rs`: one result
/// per redeemer in canonical order; a resolution failure anywhere aborts
/// the whole call; in strict mode the sequence stops after the first
/// failing redeemer (which is still recorded).
pub open spec fn spec_phase_two(
    rs: Seq<Redeemer>,
    ws: Seq<ScriptWitness>,
    cm: CostModel,
    ceiling: ExBudget,
    from_time: u64,
    to_time: u64,
    strict: bool,
) -> Result<Seq<RedeemerResult>, ValidationError>
    decreases rs.len(),
{
    if rs.len() == 0 {
        Ok(Seq::empty())
    } else {
        match spec_lookup_script(ws, rs[0].script_hash) {
            None => Err(ValidationError::ScriptResolutionFailure),
            Some(script) => {
                let res = spec_redeemer_result(rs[0], script, cm, ceiling, from_time, to_time);
                if strict && !res.success {
                    Ok(seq![res])
                } else {
                    match spec_phase_two(rs.skip(1), ws, cm, ceiling, from_time, to_time, strict) {
                        Err(e) => Err(e),
                        Ok(rest) => Ok(seq![res] + rest),
                    }
                }
            },
        }
    }
}

/// Evaluate the redeemers of `tx` from position `i` on.
fn eval_redeemers_from(
    tx: &Transaction,
    i: usize,
    ws: &Vec<ScriptWitness>,
    cm: &CostModel,
    ceiling: ExBudget,
    from_time: u64,
    to_time: u64,
    strict: bool,
) -> (r: Result<Vec<RedeemerResult>, ValidationError>)
    requires
        cm.wf(),
        i <= tx.redeemers.len(),
    ensures
        (match r {
            Ok(results) => spec_phase_two(
                tx.redeemers@.skip(i as int),
                ws@,
                *cm,
                ceiling,
                from_time,
                to_time,
                strict,
            ) == Ok::<Seq<RedeemerResult>, ValidationError>(results@),
            Err(e) => spec_phase_two(
                tx.redeemers@.skip(i as int),
                ws@,
                *cm,
                ceiling,
                from_time,
                to_time,
                strict,
            ) == Err::<Seq<RedeemerResult>, ValidationError>(e),
        }),
    decreases tx.redeemers.len() - i,
{
    let ghost rs = tx.redeemers@.skip(i as int);
    if i == tx.redeemers.len() {
        proof {
            assert(rs =~= Seq::<Redeemer>::empty());
        }
        Ok(Vec::new())
    } else {
        proof {
            assert(rs[0] == tx.redeemers@[i as int]);
            assert(rs.skip(1) =~= tx.redeemers@.skip(i + 1));
        }
        let red = &tx.redeemers[i];
        match lookup_script(ws, red.script_hash) {
            None => Err(ValidationError::ScriptResolutionFailure),
            Some(script) => {
                let inv = Term::Apply(
                    Box::new(script),
                    Box::new(context_term(term_dup(&red.data), from_time, to_time)),
                );
                let o = evaluate(&inv, ceiling, cm);
                let success = o.result.is_ok();
                let res = RedeemerResult {
                    tag: red.tag,
                    index: red.index,
                    success,
                    consumed: consumed(ceiling, o.remaining),
                };
                if strict && !success {
                    let mut out: Vec<RedeemerResult> = Vec::new();
                    out.push(res);
                    proof {
                        assert(out@ =~= seq![res]);
                    }
                    Ok(out)
                } else {
                    match eval_redeemers_from(tx, i + 1, ws, cm, ceiling, from_time, to_time, strict) {
                        Err(e) => Err(e),
                        Ok(mut rest) => {
                            let ghost tail = rest@;
                            rest.insert(0, res);
                            proof {
                                assert(rest@ =~= seq![res] + tail);
                            }
                            Ok(rest)
                        },
                    }
                }
            },
        }
    }
}

/// Phase-two validation: evaluate every redeemer of `tx` against its
/// resolved script under a fresh budget slice of `ceiling`, translating
/// the validity interval through `slot_config`, and return the outcomes
/// in the transaction's canonical redeemer order — exactly
/// `spec_phase_two` on the decoded inputs.  `strict` selects
/// abort-on-first-failure; otherwise all redeemers are evaluated and
/// every outcome is reported.
pub fn eval_phase_two(
    tx: &Transaction,
    utxo_scripts: &Vec<ScriptWitness>,
    cm: &CostModel,
    ceiling: ExBudget,
    slot_config: &SlotConfig,
    strict: bool,
) -> (r: Result<Vec<RedeemerResult>, ValidationError>)
    requires
        cm.wf(),
    ensures
        (match r {
            Ok(results) => spec_phase_two(
                tx.redeemers@,
                utxo_scripts@,
                *cm,
                ceiling,
                spec_slot_to_time(*slot_config, tx.valid_from_slot),
                spec_slot_to_time(*slot_config, tx.valid_to_slot),
                strict,
            ) == Ok::<Seq<RedeemerResult>, ValidationError>(results@),
            Err(e) => spec_phase_two(
                tx.redeemers@,
                utxo_scripts@,
                *cm,
                ceiling,
                spec_slot_to_time(*slot_config, tx.valid_from_slot),
                spec_slot_to_time(*slot_config, tx.valid_to_slot),
                strict,
            ) == Err::<Seq<RedeemerResult>, ValidationError>(e),
        }),
{
    let from_time = slot_to_time(slot_config, tx.valid_from_slot);
    let to_time = slot_to_time(slot_config, tx.valid_to_slot);
    proof {
        assert(tx.redeemers@.skip(0) =~= tx.redeemers@);
    }
    eval_redeemers_from(tx, 0, utxo_scripts, cm, ceiling, from_time, to_time, strict)
}

/// In diagnostic mode the result ordering is stable and independent of
/// evaluation order: there is one result per redeemer, the result at
/// position `i` belongs to the redeemer at position `i` of the
/// transaction, and it is a function of that redeemer and the shared
/// read-only inputs alone — never of the other redeemers' outcomes.
pub proof fn lemma_results_order_stable(
    rs: Seq<Redeemer>,
    ws: Seq<ScriptWitness>,
    cm: CostModel,
    ceiling: ExBudget,
    from_time: u64,
    to_time: u64,
)
    requires
        (spec_phase_two(rs, ws, cm, ceiling, from_time, to_time, false) is Ok),
    ensures
        (spec_phase_two(rs, ws, cm, ceiling, from_time, to_time, false)->Ok_0.len() == rs.len()),
        forall|i: int|
            0 <= i < rs.len() ==> #[trigger] spec_phase_two(
                rs,
                ws,
                cm,
                ceiling,
                from_time,
                to_time,
                false,
            )->Ok_0[i] == spec_redeemer_outcome(rs[i], ws, cm, ceiling, from_time, to_time),
    decreases rs.len(),
{
    if rs.len() > 0 {
        let rest = rs.skip(1);
        lemma_results_order_stable(rest, ws, cm, ceiling, from_time, to_time);
        let head = spec_redeemer_outcome(rs[0], ws, cm, ceiling, from_time, to_time);
        let full = spec_phase_two(rs, ws, cm, ceiling, from_time, to_time, false)->Ok_0;
        let tail = spec_phase_two(rest, ws, cm, ceiling, from_time, to_time, false)->Ok_0;
        assert(full == seq![head] + tail);
        assert forall|i: int| 0 <= i < rs.len() implies #[trigger] full[i]
            == spec_redeemer_outcome(rs[i], ws, cm, ceiling, from_time, to_time) by {
            if i > 0 {
                assert(full[i] == tail[i - 1]);
                assert(rest[i - 1] == rs[i]);
            }
        }
    }
}

} // verus!
