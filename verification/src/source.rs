//! What a pressure source can be, and how the type found on disk decides it.

use vstd::prelude::*;

verus! {

/// The kind of a pressure source. It is decided once, when the source is
/// opened, and never changes.
#[derive(Clone, Copy, Debug, PartialEq, Eq, Structural)]
pub enum SourceKind {
    /// A regular file in the PSI convention: it signals pressure as a
    /// priority event that clears itself.
    RegularFile,
    /// A named pipe: it signals pressure by becoming readable.
    NamedPipe,
    /// A connected Unix stream socket: it signals pressure by becoming
    /// readable.
    StreamSocket,
}

/// What the file system says about the type of the file at a path: the
/// answers to "is it a regular file", "is it a named pipe" and "is it a
/// socket".
#[derive(Clone, Copy, Debug, PartialEq, Eq, Structural)]
pub struct FileType {
    pub is_file: bool,
    pub is_fifo: bool,
    pub is_socket: bool,
}

impl FileType {
    /// The kind of source that a file of this type makes, if any. A regular
    /// file is asked for first, then a named pipe, then a socket.
    pub open spec fn kind(self) -> Option<SourceKind> {
        if self.is_file {
            Some(SourceKind::RegularFile)
        } else if self.is_fifo {
            Some(SourceKind::NamedPipe)
        } else if self.is_socket {
            Some(SourceKind::StreamSocket)
        } else {
            None
        }
    }

    /// Classifies a file type as a kind of pressure source.
    pub fn classify(self) -> (kind: Option<SourceKind>)
        ensures
            kind == self.kind(),
    {
        if self.is_file {
            Some(SourceKind::RegularFile)
        } else if self.is_fifo {
            Some(SourceKind::NamedPipe)
        } else if self.is_socket {
            Some(SourceKind::StreamSocket)
        } else {
            None
        }
    }
}

} // verus!
