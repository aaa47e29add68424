//! A streaming log-processing pipeline: lines are matched against a rule,
//! turned into records by a chain of transforms, and broadcast to sinks.
pub mod fanout;
pub mod held;
pub mod parsers;
pub mod pattern;
pub mod pipeline;
pub mod record;
pub mod rule;
pub mod sinks;
pub mod sources;
pub mod text;
