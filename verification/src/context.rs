use vstd::prelude::*;
use crate::comb::Comb;
use crate::value::Val;

verus! {

/// The evaluation context: a zipper over a combinator tree with one
/// designated hole, used as an explicit continuation during evaluation.
///
/// `Empty` marks the hole as the whole program. `Fst`/`Snd` place the hole on
/// the left or right side of a sequence, carrying the sibling combinator.
/// `L_S`/`R_S` place it inside a sum branch, carrying the sibling branch.
/// `L_P`/`R_P` place it inside a product component, carrying both the sibling
/// combinator and the already-produced component value, since product
/// evaluation is sequential left-then-right.
#[allow(non_camel_case_types)]
#[derive(Debug, PartialEq, Eq)]
pub enum CombCtx {
    Empty,
    Fst(Box<CombCtx>, Comb),
    Snd(Comb, Box<CombCtx>),
    L_P(Box<CombCtx>, Comb, Val),
    R_P(Comb, Val, Box<CombCtx>),
    L_S(Box<CombCtx>, Comb),
    R_S(Comb, Box<CombCtx>),
}

impl CombCtx {
    /// Plug the hole with a combinator and the value at the hole, and re-plug
    /// outward frame by frame: the reconstructed top-level (combinator, value)
    /// pair. No frame skips or duplicates structure.
    pub open spec fn plug(self, c: Comb, v: Val) -> (Comb, Val)
        decreases self,
    {
        match self {
            CombCtx::Empty => (c, v),
            CombCtx::Fst(k, c2) => (*k).plug(Comb::Sequence(Box::new(c), Box::new(c2)), v),
            CombCtx::Snd(c1, k) => (*k).plug(Comb::Sequence(Box::new(c1), Box::new(c)), v),
            CombCtx::L_P(k, c2, v2) => (*k).plug(
                Comb::Prod(Box::new(c), Box::new(c2)),
                Val::Pair(Box::new(v), Box::new(v2)),
            ),
            CombCtx::R_P(c1, v1, k) => (*k).plug(
                Comb::Prod(Box::new(c1), Box::new(c)),
                Val::Pair(Box::new(v1), Box::new(v)),
            ),
            CombCtx::L_S(k, c2) => (*k).plug(
                Comb::Sum(Box::new(c), Box::new(c2)),
                Val::Left(Box::new(v)),
            ),
            CombCtx::R_S(c1, k) => (*k).plug(
                Comb::Sum(Box::new(c1), Box::new(c)),
                Val::Right(Box::new(v)),
            ),
        }
    }

    /// An upper bound on the number of machine transitions left in this
    /// continuation once the hole's own reduction has finished.
    pub open spec fn fuel(self) -> nat
        decreases self,
    {
        match self {
            CombCtx::Empty => 0,
            CombCtx::Fst(k, c2) => 2 + c2.fuel() + (*k).fuel(),
            CombCtx::Snd(_, k) => 1 + (*k).fuel(),
            CombCtx::L_P(k, c2, _) => 2 + c2.fuel() + (*k).fuel(),
            CombCtx::R_P(_, _, k) => 1 + (*k).fuel(),
            CombCtx::L_S(k, _) => 1 + (*k).fuel(),
            CombCtx::R_S(_, k) => 1 + (*k).fuel(),
        }
    }
}

} // verus!
