use vstd::prelude::*;

verus! {

/// The algebraic data domain the machine operates on.
///
/// `Unit` is the empty product, `Left`/`Right` the sum injections, `Pair`
/// the product. `Neg` and `Frac` wrap the extended (negated and fractional)
/// value forms; they are structurally inert in this core. `Symbol` is an
/// opaque atomic value identified by name, passed through unchanged by every
/// structural isomorphism. Equality is structural.
#[derive(Debug, PartialEq, Eq)]
pub enum Val {
    Unit,
    Left(Box<Val>),
    Right(Box<Val>),
    Pair(Box<Val>, Box<Val>),
    Neg(Box<Val>),
    Frac(Box<Val>),
    Symbol(String),
}

} // verus!
