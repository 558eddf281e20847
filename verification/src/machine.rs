use vstd::prelude::*;
use crate::comb::Comb;
use crate::context::CombCtx;
use crate::error::MachineError;
use crate::iso::Iso;
use crate::value::Val;

verus! {

/// A machine state: a (combinator, value) pair tagged as about to reduce
/// (`Pre`) or finished reducing (`Post`), together with the continuation
/// that says what remains to be done.
#[derive(Debug, PartialEq, Eq)]
pub enum MachineState {
    Pre(Comb, Val, CombCtx),
    Post(Comb, Val, CombCtx),
}

impl MachineState {
    /// Terminal states: a finished pair handed to the empty continuation.
    /// `step` is the identity on them.
    pub open spec fn is_terminal(self) -> bool {
        self matches MachineState::Post(_, _, CombCtx::Empty)
    }

    /// The transition relation, as a function. Exactly the machine's rewrite
    /// rules, rule by rule; a value of the wrong shape at a primitive rule or
    /// under a sum or product lift is a shape mismatch, never silent behavior.
    pub open spec fn spec_step(self) -> Result<MachineState, MachineError> {
        match self {
            MachineState::Pre(c, v, k) => match c {
                Comb::Iso(i) => if i.is_unsupported() {
                    Err(MachineError::UnsupportedIsomorphism(i))
                } else if i.applies_to(v) {
                    Ok(MachineState::Post(Comb::Iso(i), i.apply(v), k))
                } else {
                    Err(MachineError::ShapeMismatch(Comb::Iso(i), v))
                },
                Comb::Id => Ok(MachineState::Post(Comb::Id, v, k)),
                Comb::Sym(c1) => Ok(MachineState::Post((*c1).spec_dual(), v, k)),
                Comb::Sequence(c1, c2) => Ok(MachineState::Pre(
                    *c1,
                    v,
                    CombCtx::Fst(Box::new(k), *c2),
                )),
                Comb::Sum(c1, c2) => match v {
                    Val::Left(x) => Ok(MachineState::Pre(
                        *c1,
                        *x,
                        CombCtx::L_S(Box::new(k), *c2),
                    )),
                    Val::Right(x) => Ok(MachineState::Pre(
                        *c2,
                        *x,
                        CombCtx::R_S(*c1, Box::new(k)),
                    )),
                    _ => Err(MachineError::ShapeMismatch(Comb::Sum(c1, c2), v)),
                },
                Comb::Prod(c1, c2) => match v {
                    Val::Pair(a, b) => Ok(MachineState::Pre(
                        *c1,
                        *a,
                        CombCtx::L_P(Box::new(k), *c2, *b),
                    )),
                    _ => Err(MachineError::ShapeMismatch(Comb::Prod(c1, c2), v)),
                },
            },
            MachineState::Post(c, v, k) => match k {
                CombCtx::Empty => Ok(MachineState::Post(c, v, CombCtx::Empty)),
                CombCtx::Fst(k1, c2) => Ok(MachineState::Pre(c2, v, CombCtx::Snd(c, k1))),
                CombCtx::Snd(c1, k1) => Ok(MachineState::Post(
                    Comb::Sequence(Box::new(c1), Box::new(c)),
                    v,
                    *k1,
                )),
                CombCtx::L_S(k1, c2) => Ok(MachineState::Post(
                    Comb::Sum(Box::new(c), Box::new(c2)),
                    Val::Left(Box::new(v)),
                    *k1,
                )),
                CombCtx::R_S(c1, k1) => Ok(MachineState::Post(
                    Comb::Sum(Box::new(c1), Box::new(c)),
                    Val::Right(Box::new(v)),
                    *k1,
                )),
                CombCtx::L_P(k1, c2, v2) => Ok(MachineState::Pre(
                    c2,
                    v2,
                    CombCtx::R_P(c, v, k1),
                )),
                CombCtx::R_P(c1, v1, k1) => Ok(MachineState::Post(
                    Comb::Prod(Box::new(c1), Box::new(c)),
                    Val::Pair(Box::new(v1), Box::new(v)),
                    *k1,
                )),
            },
        }
    }

    /// State-level duality: flip the tag and dualize the combinator, keeping
    /// value and continuation. Dualizing a terminal state and re-stepping
    /// runs the computation backward.
    pub open spec fn spec_dual(self) -> MachineState {
        match self {
            MachineState::Pre(c, v, k) => MachineState::Post(c.spec_dual(), v, k),
            MachineState::Post(c, v, k) => MachineState::Pre(c.spec_dual(), v, k),
        }
    }

    /// The top-level (combinator, value) pair this state stands for: its
    /// focused pair plugged back through its continuation.
    pub open spec fn plugged(self) -> (Comb, Val) {
        match self {
            MachineState::Pre(c, v, k) => k.plug(c, v),
            MachineState::Post(c, v, k) => k.plug(c, v),
        }
    }

    /// An upper bound on the transitions a state can still take before it
    /// becomes terminal or fails.
    pub open spec fn fuel(self) -> nat {
        match self {
            MachineState::Pre(c, _, k) => c.fuel() + k.fuel(),
            MachineState::Post(_, _, k) => k.fuel(),
        }
    }

    /// Take one machine transition.
    pub fn step(self) -> (r: Result<MachineState, MachineError>)
        ensures
            r == self.spec_step(),
    {
        match self {
            MachineState::Pre(c, v, k) => match c {
                Comb::Iso(i) => match i.step(v) {
                    Ok(w) => Ok(MachineState::Post(Comb::Iso(i), w, k)),
                    Err(e) => Err(e),
                },
                Comb::Id => Ok(MachineState::Post(Comb::Id, v, k)),
                Comb::Sym(c1) => Ok(MachineState::Post((*c1).dual(), v, k)),
                Comb::Sequence(c1, c2) => Ok(MachineState::Pre(
                    *c1,
                    v,
                    CombCtx::Fst(Box::new(k), *c2),
                )),
                Comb::Sum(c1, c2) => match v {
                    Val::Left(x) => Ok(MachineState::Pre(
                        *c1,
                        *x,
                        CombCtx::L_S(Box::new(k), *c2),
                    )),
                    Val::Right(x) => Ok(MachineState::Pre(
                        *c2,
                        *x,
                        CombCtx::R_S(*c1, Box::new(k)),
                    )),
                    w => Err(MachineError::ShapeMismatch(Comb::Sum(c1, c2), w)),
                },
                Comb::Prod(c1, c2) => match v {
                    Val::Pair(a, b) => Ok(MachineState::Pre(
                        *c1,
                        *a,
                        CombCtx::L_P(Box::new(k), *c2, *b),
                    )),
                    w => Err(MachineError::ShapeMismatch(Comb::Prod(c1, c2), w)),
                },
            },
            MachineState::Post(c, v, k) => match k {
                CombCtx::Empty => Ok(MachineState::Post(c, v, CombCtx::Empty)),
                CombCtx::Fst(k1, c2) => Ok(MachineState::Pre(c2, v, CombCtx::Snd(c, k1))),
                CombCtx::Snd(c1, k1) => Ok(MachineState::Post(
                    Comb::Sequence(Box::new(c1), Box::new(c)),
                    v,
                    *k1,
                )),
                CombCtx::L_S(k1, c2) => Ok(MachineState::Post(
                    Comb::Sum(Box::new(c), Box::new(c2)),
                    Val::Left(Box::new(v)),
                    *k1,
                )),
                CombCtx::R_S(c1, k1) => Ok(MachineState::Post(
                    Comb::Sum(Box::new(c1), Box::new(c)),
                    Val::Right(Box::new(v)),
                    *k1,
                )),
                CombCtx::L_P(k1, c2, v2) => Ok(MachineState::Pre(
                    c2,
                    v2,
                    CombCtx::R_P(c, v, k1),
                )),
                CombCtx::R_P(c1, v1, k1) => Ok(MachineState::Post(
                    Comb::Prod(Box::new(c1), Box::new(c)),
                    Val::Pair(Box::new(v1), Box::new(v)),
                    *k1,
                )),
            },
        }
    }

    /// Produce the dual state, for running a computation backward.
    pub fn dual(self) -> (r: MachineState)
        ensures
            r == self.spec_dual(),
    {
        match self {
            MachineState::Pre(c, v, k) => MachineState::Post(c.dual(), v, k),
            MachineState::Post(c, v, k) => MachineState::Pre(c.dual(), v, k),
        }
    }
}

/// The state after `n` transitions, or the first error met on the way.
pub open spec fn run_spec(s: MachineState, n: nat) -> Result<MachineState, MachineError>
    decreases n,
{
    if n == 0 {
        Ok(s)
    } else {
        match s.spec_step() {
            Ok(t) => run_spec(t, (n - 1) as nat),
            Err(e) => Err(e),
        }
    }
}

/// Running `m + n` transitions is running `m`, then `n` more from where that
/// ended.
pub proof fn lemma_run_add(s: MachineState, m: nat, n: nat)
    ensures
        run_spec(s, m + n) == (match run_spec(s, m) {
            Ok(t) => run_spec(t, n),
            Err(e) => Err(e),
        }),
    decreases m,
{
    if m > 0 {
        match s.spec_step() {
            Ok(t) => {
                lemma_run_add(t, (m - 1) as nat, n);
            },
            Err(_) => {},
        }
    }
}

/// Zipper correctness law: every transition that only moves the hole (all of
/// them except firing a primitive isomorphism and relabeling a formal
/// inverse) leaves the plugged top-level (combinator, value) pair unchanged;
/// descending into a frame and re-plugging outward reconstructs exactly the
/// original pair.
pub proof fn lemma_step_preserves_plugged(s: MachineState, t: MachineState)
    requires
        s.spec_step() == Ok::<MachineState, MachineError>(t),
        !(s matches MachineState::Pre(Comb::Iso(_), _, _)),
        !(s matches MachineState::Pre(Comb::Sym(_), _, _)),
    ensures
        t.plugged() == s.plugged(),
{
}

/// Every state combination is covered by a transition rule or classified as
/// a program error: the transition relation never reports a violated
/// internal invariant.
pub proof fn lemma_no_internal_invariant(s: MachineState)
    ensures
        !(s.spec_step() matches Err(MachineError::InternalInvariant)),
{
}

/// Termination measure: every transition out of a non-terminal state
/// strictly decreases the state's fuel, while the terminal fixed point keeps
/// it; repeated stepping cannot go on forever without failing or finishing.
pub proof fn lemma_step_decreases_fuel(s: MachineState, t: MachineState)
    requires
        s.spec_step() == Ok::<MachineState, MachineError>(t),
        !s.is_terminal(),
    ensures
        t.fuel() < s.fuel(),
{
}

} // verus!
