use vstd::prelude::*;
use crate::comb::Comb;
use crate::iso::Iso;
use crate::value::Val;

verus! {

/// Every failure of the machine surfaces as one of these recoverable
/// results; no primitive-level failure aborts the process or is silently
/// converted to a default value.
#[derive(Debug, PartialEq, Eq)]
pub enum MachineError {
    /// An isomorphism with no defined rewrite rule (the extended-type
    /// introduction/elimination rules) was stepped; carries that isomorphism.
    UnsupportedIsomorphism(Iso),
    /// An isomorphism or combinator rule was applied to a value of the wrong
    /// shape (a type-incorrect program); carries the offending combinator and
    /// the value.
    ShapeMismatch(Comb, Val),
    /// A state combination not covered by the transition rules. It indicates
    /// a bug in the machine itself, kept distinct from program errors; the
    /// contracts of `step` prove that it is never produced.
    InternalInvariant,
}

} // verus!
