//! Generic holders for boxed workers.
//!
//! The transforms, sinks and sources of a pipeline are trait objects. They
//! are stored inside the generic types of this module, in which the trait
//! object's type stands in the place of a type parameter: that is where the
//! verifier can tell what a list holds after a worker was added to it.
use vstd::prelude::*;

verus! {

/// A boxed value of any type, sized or not.
pub struct Held<T: ?Sized> {
    pub item: Box<T>,
}

/// A worker together with the end of the channel that it is started with.
pub struct Job<W: ?Sized, C> {
    pub worker: Box<W>,
    pub channel: C,
}

/// The boxed values that a list of holders holds, in order.
pub open spec fn held_items<T: ?Sized>(holders: Seq<Held<T>>) -> Seq<Box<T>> {
    Seq::new(holders.len(), |i: int| holders[i].item)
}

} // verus!
