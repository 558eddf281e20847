use vstd::prelude::*;
use crate::comb::Comb;
use crate::error::MachineError;
use crate::value::Val;

verus! {

/// The fourteen primitive isomorphisms: named, partial, individually
/// invertible rewrite rules between two [`Val`] shapes. Ten have a defined
/// rewrite; `EtaS`, `EpsilonS`, `EtaP` and `EpsilonP` (introduction and
/// elimination for the extended types) are declared but have no operational
/// semantics in this core.
#[derive(Debug, Clone, Copy, PartialEq, Eq)]
pub enum Iso {
    SwapS,
    AssoclS,
    AssocrS,
    Unite,
    Uniti,
    SwapP,
    AssoclP,
    AssocrP,
    Distrib,
    Factor,
    EtaS,
    EpsilonS,
    EtaP,
    EpsilonP,
}

impl Iso {
    /// The four isomorphisms whose rewrite is intentionally left undefined.
    pub open spec fn is_unsupported(self) -> bool {
        self == Iso::EtaS || self == Iso::EpsilonS || self == Iso::EtaP || self == Iso::EpsilonP
    }

    /// The declared domain of the rewrite rule: exactly the input shapes
    /// listed in its table. False for the four unsupported isomorphisms.
    pub open spec fn applies_to(self, v: Val) -> bool {
        match self {
            Iso::SwapS => v matches Val::Left(_) || v matches Val::Right(_),
            Iso::AssoclS => match v {
                Val::Left(_) => true,
                Val::Right(b) => *b matches Val::Left(_) || *b matches Val::Right(_),
                _ => false,
            },
            Iso::AssocrS => match v {
                Val::Left(b) => *b matches Val::Left(_) || *b matches Val::Right(_),
                Val::Right(_) => true,
                _ => false,
            },
            Iso::Unite => v matches Val::Pair(a, _) && *a matches Val::Unit,
            Iso::Uniti => true,
            Iso::SwapP => v matches Val::Pair(_, _),
            Iso::AssoclP => v matches Val::Pair(_, b) && *b matches Val::Pair(_, _),
            Iso::AssocrP => v matches Val::Pair(a, _) && *a matches Val::Pair(_, _),
            Iso::Distrib => v matches Val::Pair(a, _)
                && (*a matches Val::Left(_) || *a matches Val::Right(_)),
            Iso::Factor => match v {
                Val::Left(b) => *b matches Val::Pair(_, _),
                Val::Right(b) => *b matches Val::Pair(_, _),
                _ => false,
            },
            Iso::EtaS => false,
            Iso::EpsilonS => false,
            Iso::EtaP => false,
            Iso::EpsilonP => false,
        }
    }

    /// The rewrite table itself: the value each isomorphism produces on each
    /// input shape of its domain. Meaningful only where `applies_to` holds;
    /// outside the domain the input is returned unchanged.
    pub open spec fn apply(self, v: Val) -> Val
        recommends
            self.applies_to(v),
    {
        match self {
            Iso::SwapS => match v {
                Val::Left(x) => Val::Right(x),
                Val::Right(x) => Val::Left(x),
                _ => v,
            },
            Iso::AssoclS => match v {
                Val::Left(v1) => Val::Left(Box::new(Val::Left(v1))),
                Val::Right(b) => match *b {
                    Val::Left(v2) => Val::Left(Box::new(Val::Right(v2))),
                    Val::Right(v3) => Val::Right(v3),
                    _ => v,
                },
                _ => v,
            },
            Iso::AssocrS => match v {
                Val::Left(b) => match *b {
                    Val::Left(v1) => Val::Left(v1),
                    Val::Right(v2) => Val::Right(Box::new(Val::Left(v2))),
                    _ => v,
                },
                Val::Right(v3) => Val::Right(Box::new(Val::Right(v3))),
                _ => v,
            },
            Iso::Unite => match v {
                Val::Pair(a, x) => match *a {
                    Val::Unit => *x,
                    _ => v,
                },
                _ => v,
            },
            Iso::Uniti => Val::Pair(Box::new(Val::Unit), Box::new(v)),
            Iso::SwapP => match v {
                Val::Pair(v1, v2) => Val::Pair(v2, v1),
                _ => v,
            },
            Iso::AssoclP => match v {
                Val::Pair(v1, b) => match *b {
                    Val::Pair(v2, v3) => Val::Pair(Box::new(Val::Pair(v1, v2)), v3),
                    _ => v,
                },
                _ => v,
            },
            Iso::AssocrP => match v {
                Val::Pair(a, v3) => match *a {
                    Val::Pair(v1, v2) => Val::Pair(v1, Box::new(Val::Pair(v2, v3))),
                    _ => v,
                },
                _ => v,
            },
            Iso::Distrib => match v {
                Val::Pair(a, v3) => match *a {
                    Val::Left(v1) => Val::Left(Box::new(Val::Pair(v1, v3))),
                    Val::Right(v2) => Val::Right(Box::new(Val::Pair(v2, v3))),
                    _ => v,
                },
                _ => v,
            },
            Iso::Factor => match v {
                Val::Left(b) => match *b {
                    Val::Pair(v1, v3) => Val::Pair(Box::new(Val::Left(v1)), v3),
                    _ => v,
                },
                Val::Right(b) => match *b {
                    Val::Pair(v2, v3) => Val::Pair(Box::new(Val::Right(v2)), v3),
                    _ => v,
                },
                _ => v,
            },
            Iso::EtaS => v,
            Iso::EpsilonS => v,
            Iso::EtaP => v,
            Iso::EpsilonP => v,
        }
    }

    /// The fixed involutive dual pairing: each isomorphism with its inverse.
    pub open spec fn spec_dual(self) -> Iso {
        match self {
            Iso::SwapS => Iso::SwapS,
            Iso::AssoclS => Iso::AssocrS,
            Iso::AssocrS => Iso::AssoclS,
            Iso::Unite => Iso::Uniti,
            Iso::Uniti => Iso::Unite,
            Iso::SwapP => Iso::SwapP,
            Iso::AssoclP => Iso::AssocrP,
            Iso::AssocrP => Iso::AssoclP,
            Iso::Distrib => Iso::Factor,
            Iso::Factor => Iso::Distrib,
            Iso::EtaS => Iso::EpsilonS,
            Iso::EpsilonS => Iso::EtaS,
            Iso::EtaP => Iso::EpsilonP,
            Iso::EpsilonP => Iso::EtaP,
        }
    }

    /// The inverse pairing of this isomorphism.
    pub fn dual(self) -> (r: Iso)
        ensures
            r == self.spec_dual(),
    {
        match self {
            Iso::SwapS => Iso::SwapS,
            Iso::AssoclS => Iso::AssocrS,
            Iso::AssocrS => Iso::AssoclS,
            Iso::Unite => Iso::Uniti,
            Iso::Uniti => Iso::Unite,
            Iso::SwapP => Iso::SwapP,
            Iso::AssoclP => Iso::AssocrP,
            Iso::AssocrP => Iso::AssoclP,
            Iso::Distrib => Iso::Factor,
            Iso::Factor => Iso::Distrib,
            Iso::EtaS => Iso::EpsilonS,
            Iso::EpsilonS => Iso::EtaS,
            Iso::EtaP => Iso::EpsilonP,
            Iso::EpsilonP => Iso::EtaP,
        }
    }

    /// Apply the rewrite rule to a value.
    ///
    /// Returns `Ok` with the rewritten value exactly on the declared domain;
    /// an unsupported isomorphism reports itself, and any other value outside
    /// the domain is returned inside a shape-mismatch error.
    pub fn step(self, val: Val) -> (r: Result<Val, MachineError>)
        ensures
            self.is_unsupported() ==> r == Err::<Val, MachineError>(
                MachineError::UnsupportedIsomorphism(self),
            ),
            !self.is_unsupported() && self.applies_to(val) ==> r == Ok::<Val, MachineError>(
                self.apply(val),
            ),
            !self.is_unsupported() && !self.applies_to(val) ==> r == Err::<Val, MachineError>(
                MachineError::ShapeMismatch(Comb::Iso(self), val),
            ),
    {
        match self {
            Iso::SwapS => match val {
                Val::Left(x) => Ok(Val::Right(x)),
                Val::Right(x) => Ok(Val::Left(x)),
                w => Err(MachineError::ShapeMismatch(Comb::Iso(self), w)),
            },
            Iso::AssoclS => match val {
                Val::Left(v1) => Ok(Val::Left(Box::new(Val::Left(v1)))),
                Val::Right(b) => match *b {
                    Val::Left(v2) => Ok(Val::Left(Box::new(Val::Right(v2)))),
                    Val::Right(v3) => Ok(Val::Right(v3)),
                    w => Err(MachineError::ShapeMismatch(
                        Comb::Iso(self),
                        Val::Right(Box::new(w)),
                    )),
                },
                w => Err(MachineError::ShapeMismatch(Comb::Iso(self), w)),
            },
            Iso::AssocrS => match val {
                Val::Left(b) => match *b {
                    Val::Left(v1) => Ok(Val::Left(v1)),
                    Val::Right(v2) => Ok(Val::Right(Box::new(Val::Left(v2)))),
                    w => Err(MachineError::ShapeMismatch(
                        Comb::Iso(self),
                        Val::Left(Box::new(w)),
                    )),
                },
                Val::Right(v3) => Ok(Val::Right(Box::new(Val::Right(v3)))),
                w => Err(MachineError::ShapeMismatch(Comb::Iso(self), w)),
            },
            Iso::Unite => match val {
                Val::Pair(a, x) => match *a {
                    Val::Unit => Ok(*x),
                    w => Err(MachineError::ShapeMismatch(
                        Comb::Iso(self),
                        Val::Pair(Box::new(w), x),
                    )),
                },
                w => Err(MachineError::ShapeMismatch(Comb::Iso(self), w)),
            },
            Iso::Uniti => Ok(Val::Pair(Box::new(Val::Unit), Box::new(val))),
            Iso::SwapP => match val {
                Val::Pair(v1, v2) => Ok(Val::Pair(v2, v1)),
                w => Err(MachineError::ShapeMismatch(Comb::Iso(self), w)),
            },
            Iso::AssoclP => match val {
                Val::Pair(v1, b) => match *b {
                    Val::Pair(v2, v3) => Ok(Val::Pair(Box::new(Val::Pair(v1, v2)), v3)),
                    w => Err(MachineError::ShapeMismatch(
                        Comb::Iso(self),
                        Val::Pair(v1, Box::new(w)),
                    )),
                },
                w => Err(MachineError::ShapeMismatch(Comb::Iso(self), w)),
            },
            Iso::AssocrP => match val {
                Val::Pair(a, v3) => match *a {
                    Val::Pair(v1, v2) => Ok(Val::Pair(v1, Box::new(Val::Pair(v2, v3)))),
                    w => Err(MachineError::ShapeMismatch(
                        Comb::Iso(self),
                        Val::Pair(Box::new(w), v3),
                    )),
                },
                w => Err(MachineError::ShapeMismatch(Comb::Iso(self), w)),
            },
            Iso::Distrib => match val {
                Val::Pair(a, v3) => match *a {
                    Val::Left(v1) => Ok(Val::Left(Box::new(Val::Pair(v1, v3)))),
                    Val::Right(v2) => Ok(Val::Right(Box::new(Val::Pair(v2, v3)))),
                    w => Err(MachineError::ShapeMismatch(
                        Comb::Iso(self),
                        Val::Pair(Box::new(w), v3),
                    )),
                },
                w => Err(MachineError::ShapeMismatch(Comb::Iso(self), w)),
            },
            Iso::Factor => match val {
                Val::Left(b) => match *b {
                    Val::Pair(v1, v3) => Ok(Val::Pair(Box::new(Val::Left(v1)), v3)),
                    w => Err(MachineError::ShapeMismatch(
                        Comb::Iso(self),
                        Val::Left(Box::new(w)),
                    )),
                },
                Val::Right(b) => match *b {
                    Val::Pair(v2, v3) => Ok(Val::Pair(Box::new(Val::Right(v2)), v3)),
                    w => Err(MachineError::ShapeMismatch(
                        Comb::Iso(self),
                        Val::Right(Box::new(w)),
                    )),
                },
                w => Err(MachineError::ShapeMismatch(Comb::Iso(self), w)),
            },
            Iso::EtaS => Err(MachineError::UnsupportedIsomorphism(self)),
            Iso::EpsilonS => Err(MachineError::UnsupportedIsomorphism(self)),
            Iso::EtaP => Err(MachineError::UnsupportedIsomorphism(self)),
            Iso::EpsilonP => Err(MachineError::UnsupportedIsomorphism(self)),
        }
    }
}

/// Involution law: dualizing any isomorphism twice yields the isomorphism
/// itself.
pub proof fn lemma_iso_dual_involution(i: Iso)
    ensures
        i.spec_dual().spec_dual() == i,
{
}

/// Each implemented isomorphism is a bijection between its declared shapes:
/// its dual accepts every output of the rule and maps it back to the input.
pub proof fn lemma_iso_apply_dual(i: Iso, v: Val)
    requires
        i.applies_to(v),
    ensures
        !i.spec_dual().is_unsupported(),
        i.spec_dual().applies_to(i.apply(v)),
        i.spec_dual().apply(i.apply(v)) == v,
{
}

} // verus!
