use vstd::prelude::*;
use crate::comb::Comb;
use crate::comb::lemma_dual_sym_free;
use crate::context::CombCtx;
use crate::error::MachineError;
use crate::iso::lemma_iso_apply_dual;
use crate::machine::MachineState;
use crate::machine::lemma_run_add;
use crate::machine::run_spec;
use crate::value::Val;

verus! {

/// Well-typedness of a combinator against a value: the machine, started on
/// this pair, meets no unsupported isomorphism and no shape mismatch.
pub open spec fn well_typed(c: Comb, v: Val) -> bool
    decreases c,
{
    match c {
        Comb::Iso(i) => i.applies_to(v),
        Comb::Id => true,
        Comb::Sym(_) => true,
        Comb::Sequence(c1, c2) => well_typed(*c1, v) && well_typed(*c2, output(*c1, v)),
        Comb::Sum(c1, c2) => match v {
            Val::Left(x) => well_typed(*c1, *x),
            Val::Right(x) => well_typed(*c2, *x),
            _ => false,
        },
        Comb::Prod(c1, c2) => match v {
            Val::Pair(a, b) => well_typed(*c1, *a) && well_typed(*c2, *b),
            _ => false,
        },
    }
}

/// The value a run of the machine produces on a well-typed pair. A formal
/// inverse leaves its value untouched, since the machine only relabels it.
pub open spec fn output(c: Comb, v: Val) -> Val
    recommends
        well_typed(c, v),
    decreases c,
{
    match c {
        Comb::Iso(i) => i.apply(v),
        Comb::Id => v,
        Comb::Sym(_) => v,
        Comb::Sequence(c1, c2) => output(*c2, output(*c1, v)),
        Comb::Sum(c1, c2) => match v {
            Val::Left(x) => Val::Left(Box::new(output(*c1, *x))),
            Val::Right(x) => Val::Right(Box::new(output(*c2, *x))),
            _ => v,
        },
        Comb::Prod(c1, c2) => match v {
            Val::Pair(a, b) => Val::Pair(
                Box::new(output(*c1, *a)),
                Box::new(output(*c2, *b)),
            ),
            _ => v,
        },
    }
}

/// The combinator a run of the machine rebuilds while unwinding. It equals
/// the program itself except at a formal inverse, which the machine relabels
/// to its structural dual without reducing it.
pub open spec fn residual(c: Comb, v: Val) -> Comb
    recommends
        well_typed(c, v),
    decreases c,
{
    match c {
        Comb::Iso(i) => Comb::Iso(i),
        Comb::Id => Comb::Id,
        Comb::Sym(c1) => (*c1).spec_dual(),
        Comb::Sequence(c1, c2) => Comb::Sequence(
            Box::new(residual(*c1, v)),
            Box::new(residual(*c2, output(*c1, v))),
        ),
        Comb::Sum(c1, c2) => match v {
            Val::Left(x) => Comb::Sum(Box::new(residual(*c1, *x)), c2),
            Val::Right(x) => Comb::Sum(c1, Box::new(residual(*c2, *x))),
            _ => c,
        },
        Comb::Prod(c1, c2) => match v {
            Val::Pair(a, b) => Comb::Prod(
                Box::new(residual(*c1, *a)),
                Box::new(residual(*c2, *b)),
            ),
            _ => c,
        },
    }
}

/// The exact number of machine transitions a well-typed pair takes from
/// entering its combinator to handing the result to the continuation.
pub open spec fn steps(c: Comb, v: Val) -> nat
    recommends
        well_typed(c, v),
    decreases c,
{
    match c {
        Comb::Iso(_) => 1,
        Comb::Id => 1,
        Comb::Sym(_) => 1,
        Comb::Sequence(c1, c2) => 3 + steps(*c1, v) + steps(*c2, output(*c1, v)),
        Comb::Sum(c1, c2) => match v {
            Val::Left(x) => 2 + steps(*c1, *x),
            Val::Right(x) => 2 + steps(*c2, *x),
            _ => 1,
        },
        Comb::Prod(c1, c2) => match v {
            Val::Pair(a, b) => 3 + steps(*c1, *a) + steps(*c2, *b),
            _ => 1,
        },
    }
}

/// The exact transition count of a well-typed run is bounded by the
/// combinator's fuel, a measure of the program tree's size alone.
pub proof fn lemma_steps_le_fuel(c: Comb, v: Val)
    requires
        well_typed(c, v),
    ensures
        steps(c, v) <= c.fuel(),
    decreases c,
{
    match c {
        Comb::Iso(_) => {},
        Comb::Id => {},
        Comb::Sym(_) => {},
        Comb::Sequence(c1, c2) => {
            lemma_steps_le_fuel(*c1, v);
            lemma_steps_le_fuel(*c2, output(*c1, v));
        },
        Comb::Sum(c1, c2) => match v {
            Val::Left(x) => {
                lemma_steps_le_fuel(*c1, *x);
            },
            Val::Right(x) => {
                lemma_steps_le_fuel(*c2, *x);
            },
            _ => {},
        },
        Comb::Prod(c1, c2) => match v {
            Val::Pair(a, b) => {
                lemma_steps_le_fuel(*c1, *a);
                lemma_steps_le_fuel(*c2, *b);
            },
            _ => {},
        },
    }
}

/// A single successful transition, seen through `run_spec`.
proof fn lemma_run_one(s: MachineState, t: MachineState)
    requires
        s.spec_step() == Ok::<MachineState, MachineError>(t),
    ensures
        run_spec(s, 1) == Ok::<MachineState, MachineError>(t),
{
    reveal_with_fuel(run_spec, 2);
}

/// Big-step/small-step correspondence: on a well-typed pair, under any
/// continuation, the machine runs in exactly `steps(c, v)` transitions from
/// entering the combinator to handing `output(c, v)` and the rebuilt
/// combinator to that continuation.
pub proof fn lemma_eval_run(c: Comb, v: Val, k: CombCtx)
    requires
        well_typed(c, v),
    ensures
        run_spec(MachineState::Pre(c, v, k), steps(c, v)) == Ok::<MachineState, MachineError>(
            MachineState::Post(residual(c, v), output(c, v), k),
        ),
    decreases c,
{
    let s0 = MachineState::Pre(c, v, k);
    match c {
        Comb::Iso(_) => {
            lemma_run_one(s0, MachineState::Post(residual(c, v), output(c, v), k));
        },
        Comb::Id => {
            lemma_run_one(s0, MachineState::Post(residual(c, v), output(c, v), k));
        },
        Comb::Sym(_) => {
            lemma_run_one(s0, MachineState::Post(residual(c, v), output(c, v), k));
        },
        Comb::Sequence(c1, c2) => {
            let v1 = output(*c1, v);
            let r1 = residual(*c1, v);
            let n1 = steps(*c1, v);
            let n2 = steps(*c2, v1);
            let k1 = CombCtx::Fst(Box::new(k), *c2);
            let s1 = MachineState::Pre(*c1, v, k1);
            let s2 = MachineState::Post(r1, v1, k1);
            let k2 = CombCtx::Snd(r1, Box::new(k));
            let s3 = MachineState::Pre(*c2, v1, k2);
            let s4 = MachineState::Post(residual(*c2, v1), output(*c2, v1), k2);
            lemma_eval_run(*c1, v, k1);
            lemma_eval_run(*c2, v1, k2);
            lemma_run_one(s0, s1);
            lemma_run_one(s2, s3);
            lemma_run_one(s4, MachineState::Post(residual(c, v), output(c, v), k));
            lemma_run_add(s0, 1, n1 + 1 + n2 + 1);
            lemma_run_add(s1, n1, 1 + n2 + 1);
            lemma_run_add(s2, 1, n2 + 1);
            lemma_run_add(s3, n2, 1);
        },
        Comb::Sum(c1, c2) => match v {
            Val::Left(x) => {
                let n1 = steps(*c1, *x);
                let k1 = CombCtx::L_S(Box::new(k), *c2);
                let s1 = MachineState::Pre(*c1, *x, k1);
                let s2 = MachineState::Post(residual(*c1, *x), output(*c1, *x), k1);
                lemma_eval_run(*c1, *x, k1);
                lemma_run_one(s0, s1);
                lemma_run_one(s2, MachineState::Post(residual(c, v), output(c, v), k));
                lemma_run_add(s0, 1, n1 + 1);
                lemma_run_add(s1, n1, 1);
            },
            Val::Right(x) => {
                let n2 = steps(*c2, *x);
                let k1 = CombCtx::R_S(*c1, Box::new(k));
                let s1 = MachineState::Pre(*c2, *x, k1);
                let s2 = MachineState::Post(residual(*c2, *x), output(*c2, *x), k1);
                lemma_eval_run(*c2, *x, k1);
                lemma_run_one(s0, s1);
                lemma_run_one(s2, MachineState::Post(residual(c, v), output(c, v), k));
                lemma_run_add(s0, 1, n2 + 1);
                lemma_run_add(s1, n2, 1);
            },
            _ => {},
        },
        Comb::Prod(c1, c2) => match v {
            Val::Pair(a, b) => {
                let w1 = output(*c1, *a);
                let r1 = residual(*c1, *a);
                let n1 = steps(*c1, *a);
                let n2 = steps(*c2, *b);
                let k1 = CombCtx::L_P(Box::new(k), *c2, *b);
                let s1 = MachineState::Pre(*c1, *a, k1);
                let s2 = MachineState::Post(r1, w1, k1);
                let k2 = CombCtx::R_P(r1, w1, Box::new(k));
                let s3 = MachineState::Pre(*c2, *b, k2);
                let s4 = MachineState::Post(residual(*c2, *b), output(*c2, *b), k2);
                lemma_eval_run(*c1, *a, k1);
                lemma_eval_run(*c2, *b, k2);
                lemma_run_one(s0, s1);
                lemma_run_one(s2, s3);
                lemma_run_one(s4, MachineState::Post(residual(c, v), output(c, v), k));
                lemma_run_add(s0, 1, n1 + 1 + n2 + 1);
                lemma_run_add(s1, n1, 1 + n2 + 1);
                lemma_run_add(s2, 1, n2 + 1);
                lemma_run_add(s3, n2, 1);
            },
            _ => {},
        },
    }
}

/// On a term without formal inverses the machine rebuilds the program
/// exactly as it was written.
pub proof fn lemma_residual_sym_free(c: Comb, v: Val)
    requires
        well_typed(c, v),
        c.sym_free(),
    ensures
        residual(c, v) == c,
    decreases c,
{
    match c {
        Comb::Iso(_) => {},
        Comb::Id => {},
        Comb::Sym(_) => {},
        Comb::Sequence(c1, c2) => {
            lemma_residual_sym_free(*c1, v);
            lemma_residual_sym_free(*c2, output(*c1, v));
        },
        Comb::Sum(c1, c2) => match v {
            Val::Left(x) => {
                lemma_residual_sym_free(*c1, *x);
            },
            Val::Right(x) => {
                lemma_residual_sym_free(*c2, *x);
            },
            _ => {},
        },
        Comb::Prod(c1, c2) => match v {
            Val::Pair(a, b) => {
                lemma_residual_sym_free(*c1, *a);
                lemma_residual_sym_free(*c2, *b);
            },
            _ => {},
        },
    }
}

/// Big-step reversal: the structural dual of a well-typed program is
/// well-typed against the program's output, maps that output back to the
/// original input, and takes exactly as many transitions.
pub proof fn lemma_output_dual(c: Comb, v: Val)
    requires
        well_typed(c, v),
    ensures
        well_typed(c.spec_dual(), output(c, v)),
        output(c.spec_dual(), output(c, v)) == v,
        steps(c.spec_dual(), output(c, v)) == steps(c, v),
    decreases c,
{
    match c {
        Comb::Iso(i) => {
            lemma_iso_apply_dual(i, v);
        },
        Comb::Id => {},
        Comb::Sym(c1) => {
            crate::comb::lemma_comb_dual_involution(*c1);
        },
        Comb::Sequence(c1, c2) => {
            let v1 = output(*c1, v);
            lemma_output_dual(*c1, v);
            lemma_output_dual(*c2, v1);
        },
        Comb::Sum(c1, c2) => match v {
            Val::Left(x) => {
                lemma_output_dual(*c1, *x);
            },
            Val::Right(x) => {
                lemma_output_dual(*c2, *x);
            },
            _ => {},
        },
        Comb::Prod(c1, c2) => match v {
            Val::Pair(a, b) => {
                lemma_output_dual(*c1, *a);
                lemma_output_dual(*c2, *b);
            },
            _ => {},
        },
    }
}

/// Termination law: started at the top level on a well-typed pair, the
/// machine reaches a terminal state in exactly `steps(c, v)` transitions,
/// carrying the run's output value.
pub proof fn theorem_termination(c: Comb, v: Val)
    requires
        well_typed(c, v),
    ensures
        run_spec(MachineState::Pre(c, v, CombCtx::Empty), steps(c, v)) == Ok::<
            MachineState,
            MachineError,
        >(MachineState::Post(residual(c, v), output(c, v), CombCtx::Empty)),
        MachineState::Post(residual(c, v), output(c, v), CombCtx::Empty).is_terminal(),
{
    lemma_eval_run(c, v, CombCtx::Empty);
}

/// Reversibility law: a well-typed program without formal inverses runs from
/// its input to a terminal state in `N` transitions; dualizing that terminal
/// state and stepping `N` more transitions deterministically reaches a
/// terminal state whose value component is the original input.
pub proof fn theorem_reversibility(c: Comb, v: Val)
    requires
        well_typed(c, v),
        c.sym_free(),
    ensures
        ({
            let n = steps(c, v);
            let w = output(c, v);
            let fwd = MachineState::Post(c, w, CombCtx::Empty);
            &&& run_spec(MachineState::Pre(c, v, CombCtx::Empty), n) == Ok::<
                MachineState,
                MachineError,
            >(fwd)
            &&& fwd.spec_dual() == MachineState::Pre(c.spec_dual(), w, CombCtx::Empty)
            &&& run_spec(fwd.spec_dual(), n) == Ok::<MachineState, MachineError>(
                MachineState::Post(c.spec_dual(), v, CombCtx::Empty),
            )
        }),
{
    let w = output(c, v);
    lemma_eval_run(c, v, CombCtx::Empty);
    lemma_residual_sym_free(c, v);
    lemma_output_dual(c, v);
    lemma_dual_sym_free(c);
    lemma_eval_run(c.spec_dual(), w, CombCtx::Empty);
    lemma_residual_sym_free(c.spec_dual(), w);
}

} // verus!
