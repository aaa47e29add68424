//! Sources: the producers of the pipeline's lines.
pub mod filetail;
pub mod traits;

pub use filetail::FileTailSource;
pub use traits::Source;
