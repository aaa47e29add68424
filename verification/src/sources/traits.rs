//! The source capability.
use vstd::prelude::*;
use std::sync::mpsc::Sender;
use std::sync::Arc;

verus! {

/// A source: it pushes lines into one channel, on a thread of its own, and
/// stops as soon as the channel refuses a line.
pub trait Source: Send {
    /// Emits lines into `tx`.
    fn run(&self, tx: Sender<Arc<String>>);
}

} // verus!
