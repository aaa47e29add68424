//! Transforms: the steps of a pattern stage's chain, each a function from
//! record to record.
pub mod chain;
pub mod drop;
pub mod regexsplit;
pub mod traits;

pub use chain::Chain;
pub use drop::DropFieldsParser;
pub use regexsplit::RegexSplitParser;
pub use traits::Parser;
