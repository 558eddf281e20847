use vstd::prelude::*;
use crate::iso::Iso;

verus! {

/// A program term: the combinator algebra over the primitive isomorphisms,
/// closed under identity, formal inverse, sequencing, sum-lifting and
/// product-lifting. Each node exclusively owns its sub-combinators.
#[derive(Debug, PartialEq, Eq)]
pub enum Comb {
    Iso(Iso),
    Id,
    Sym(Box<Comb>),
    Sequence(Box<Comb>, Box<Comb>),
    Sum(Box<Comb>, Box<Comb>),
    Prod(Box<Comb>, Box<Comb>),
}

impl Comb {
    /// The structural dual: primitive rules are dualized pointwise, and a
    /// sequence is reversed, since running it backward undoes the second
    /// stage first.
    pub open spec fn spec_dual(self) -> Comb
        decreases self,
    {
        match self {
            Comb::Iso(i) => Comb::Iso(i.spec_dual()),
            Comb::Id => Comb::Id,
            Comb::Sym(c) => Comb::Sym(Box::new((*c).spec_dual())),
            Comb::Sequence(c1, c2) => Comb::Sequence(
                Box::new((*c2).spec_dual()),
                Box::new((*c1).spec_dual()),
            ),
            Comb::Sum(c1, c2) => Comb::Sum(
                Box::new((*c1).spec_dual()),
                Box::new((*c2).spec_dual()),
            ),
            Comb::Prod(c1, c2) => Comb::Prod(
                Box::new((*c1).spec_dual()),
                Box::new((*c2).spec_dual()),
            ),
        }
    }

    /// True where no formal inverse (`Sym`) node occurs in the term.
    pub open spec fn sym_free(self) -> bool
        decreases self,
    {
        match self {
            Comb::Iso(_) => true,
            Comb::Id => true,
            Comb::Sym(_) => false,
            Comb::Sequence(c1, c2) => (*c1).sym_free() && (*c2).sym_free(),
            Comb::Sum(c1, c2) => (*c1).sym_free() && (*c2).sym_free(),
            Comb::Prod(c1, c2) => (*c1).sym_free() && (*c2).sym_free(),
        }
    }

    /// An upper bound on the number of machine transitions needed to reduce
    /// this combinator on any value; each composite node costs its entry,
    /// hand-over and exit transitions beside its children.
    pub open spec fn fuel(self) -> nat
        decreases self,
    {
        match self {
            Comb::Iso(_) => 1,
            Comb::Id => 1,
            Comb::Sym(_) => 1,
            Comb::Sequence(c1, c2) => 3 + (*c1).fuel() + (*c2).fuel(),
            Comb::Sum(c1, c2) => 3 + (*c1).fuel() + (*c2).fuel(),
            Comb::Prod(c1, c2) => 3 + (*c1).fuel() + (*c2).fuel(),
        }
    }

    /// The structural dual of this program.
    pub fn dual(self) -> (r: Comb)
        ensures
            r == self.spec_dual(),
        decreases self,
    {
        match self {
            Comb::Iso(i) => Comb::Iso(i.dual()),
            Comb::Id => Comb::Id,
            Comb::Sym(c) => Comb::Sym(Box::new((*c).dual())),
            Comb::Sequence(c1, c2) => Comb::Sequence(Box::new((*c2).dual()), Box::new((*c1).dual())),
            Comb::Sum(c1, c2) => Comb::Sum(Box::new((*c1).dual()), Box::new((*c2).dual())),
            Comb::Prod(c1, c2) => Comb::Prod(Box::new((*c1).dual()), Box::new((*c2).dual())),
        }
    }
}

/// Involution law: the structural double dual of any combinator is the
/// combinator itself.
pub proof fn lemma_comb_dual_involution(c: Comb)
    ensures
        c.spec_dual().spec_dual() == c,
    decreases c,
{
    match c {
        Comb::Iso(i) => {
            crate::iso::lemma_iso_dual_involution(i);
        },
        Comb::Id => {},
        Comb::Sym(c1) => {
            lemma_comb_dual_involution(*c1);
        },
        Comb::Sequence(c1, c2) => {
            lemma_comb_dual_involution(*c1);
            lemma_comb_dual_involution(*c2);
        },
        Comb::Sum(c1, c2) => {
            lemma_comb_dual_involution(*c1);
            lemma_comb_dual_involution(*c2);
        },
        Comb::Prod(c1, c2) => {
            lemma_comb_dual_involution(*c1);
            lemma_comb_dual_involution(*c2);
        },
    }
}

/// The structural dual of a term without formal inverses is itself without
/// formal inverses.
pub proof fn lemma_dual_sym_free(c: Comb)
    requires
        c.sym_free(),
    ensures
        c.spec_dual().sym_free(),
    decreases c,
{
    match c {
        Comb::Iso(_) => {},
        Comb::Id => {},
        Comb::Sym(_) => {},
        Comb::Sequence(c1, c2) => {
            lemma_dual_sym_free(*c1);
            lemma_dual_sym_free(*c2);
        },
        Comb::Sum(c1, c2) => {
            lemma_dual_sym_free(*c1);
            lemma_dual_sym_free(*c2);
        },
        Comb::Prod(c1, c2) => {
            lemma_dual_sym_free(*c1);
            lemma_dual_sym_free(*c2);
        },
    }
}

} // verus!
