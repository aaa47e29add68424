//! Sinks: the consumers of a pattern stage's records.
pub mod fileappend;
pub mod traits;

pub use fileappend::FileAppendSink;
pub use traits::Sink;
