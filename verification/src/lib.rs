//! A small-step abstract machine for a reversible combinator calculus.
//!
//! Programs are combinators built from a fixed set of primitive, individually
//! invertible rewrite rules ("isomorphisms") between algebraic value shapes
//! (unit, sum, product), composed by sequencing, sum-lifting and
//! product-lifting. Every program is deterministic and can be run backward
//! from any reachable state to recover its input: the machine's central
//! correctness property, stated and proved in [`eval`].

pub mod value;
pub mod error;
pub mod iso;
pub mod comb;
pub mod context;
pub mod machine;
pub mod eval;
