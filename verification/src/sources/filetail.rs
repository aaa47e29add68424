//! The source that follows a growing text file.
use vstd::prelude::*;
use std::sync::Arc;
use crate::text::trim_line_end;
use crate::text::without_trailing_space;

verus! {

/// The name of a source that was given none.
pub const DEFAULT_SOURCE_NAME: &'static str = "FileTailSource";

/// A source that emits the lines of the file at `path` as the file grows.
pub struct FileTailSource {
    path: String,
    name: String,
}

/// How far into the file the source has read: the offset, in bytes, at which
/// the next read starts.
pub struct TailCursor {
    last_pos: u64,
}

impl TailCursor {
    /// The offset at which the next read starts.
    pub closed spec fn position(&self) -> nat {
        self.last_pos as nat
    }

    /// The cursor at the start of the file.
    pub fn new() -> (cursor: TailCursor)
        ensures
            cursor.position() == 0,
    {
        TailCursor { last_pos: 0 }
    }

    /// The offset at which the next read starts.
    pub fn offset(&self) -> (offset: u64)
        ensures
            offset == self.position(),
    {
        self.last_pos
    }

    /// Takes note of the file's size when the file is opened. A file shorter
    /// than what was already read has been rotated or cut: reading starts
    /// over at its beginning, and the answer is `true`. Otherwise the cursor
    /// stays where it is.
    pub fn resume(&mut self, current_size: u64) -> (rotated: bool)
        ensures
            rotated == (current_size < old(self).position()),
            final(self).position() == if rotated {
                0
            } else {
                old(self).position()
            },
    {
        if current_size < self.last_pos {
            self.last_pos = 0;
            true
        } else {
            false
        }
    }

    /// Moves the cursor past a line of `bytes_read` bytes that has been
    /// handed on.
    pub fn advance(&mut self, bytes_read: usize)
        requires
            old(self).position() + bytes_read <= u64::MAX,
        ensures
            final(self).position() == old(self).position() + bytes_read,
    {
        self.last_pos = self.last_pos + bytes_read as u64;
    }
}

impl FileTailSource {
    /// The source's name.
    pub closed spec fn label(&self) -> Seq<char> {
        self.name@
    }

    /// The path of the file that the source follows.
    pub closed spec fn target(&self) -> Seq<char> {
        self.path@
    }

    /// A source named `name`, or `FileTailSource` where no name is given,
    /// that follows the file at `path`.
    pub fn new(name: Option<&str>, path: &str) -> (source: FileTailSource)
        ensures
            source.target() == path@,
            source.label() == match name {
                Some(given) => given@,
                None => DEFAULT_SOURCE_NAME@,
            },
    {
        let name = match name {
            Some(given) => given.to_owned(),
            None => DEFAULT_SOURCE_NAME.to_owned(),
        };
        FileTailSource { path: path.to_owned(), name }
    }

    /// The source's name.
    pub fn name(&self) -> (name: &str)
        ensures
            name@ == self.label(),
    {
        self.name.as_str()
    }

    /// The path of the file that the source follows.
    pub fn path(&self) -> (path: &str)
        ensures
            path@ == self.target(),
    {
        self.path.as_str()
    }

    /// The line that the source emits for `raw`, a line as it was read from
    /// the file: the text without its line ending and other trailing white
    /// space, ready to be shared.
    pub fn message(raw: &str) -> (line: Arc<String>)
        ensures
            line@ == without_trailing_space(raw@),
    {
        Arc::new(trim_line_end(raw))
    }
}

} // verus!
