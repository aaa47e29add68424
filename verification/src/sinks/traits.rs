//! The sink capability.
use vstd::prelude::*;
use std::sync::mpsc::Receiver;
use std::sync::Arc;
use crate::record::Record;

verus! {

/// A sink: it takes the records of one channel and does its work on each,
/// on a thread of its own, until the channel is closed, and then returns.
pub trait Sink: Send {
    /// Drains `channel_from_pattern`.
    fn run(&self, channel_from_pattern: Receiver<Arc<Record>>);
}

} // verus!
