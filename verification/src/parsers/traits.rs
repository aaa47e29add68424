//! The transform capability.
use vstd::prelude::*;
use crate::record::Record;

verus! {

/// A transform: a pure function from record to record.
///
/// An implementation says in `transform` which mapping it produces from
/// which, and `parse` computes exactly that. A transform passes through the
/// fields it does not know, and is reused for every record of its stage.
pub trait Parser: Send {
    /// The mapping that `parse` produces from `input`. A transform that does
    /// not say otherwise passes every record through unchanged.
    open spec fn transform(&self, input: Map<Seq<char>, Seq<char>>) -> Map<Seq<char>, Seq<char>> {
        input
    }

    /// Applies the transform to `input`.
    fn parse(&self, input: Record) -> (output: Record)
        ensures
            output@ == self.transform(input@),
    ;
}

} // verus!
