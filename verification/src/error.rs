//! The failures that stop an export.

use vstd::prelude::*;

verus! {

/// Why an export stopped.  A cell that cannot be decoded is not among these:
/// it is rendered as an empty cell and the export goes on.
#[derive(Clone, Copy, Debug, PartialEq, Eq, Structural)]
pub enum ExportError {
    /// A required setting is missing or malformed; nothing has been asked of
    /// the database yet.
    Configuration,
    /// The connection pool could not be established.
    Connection,
    /// Reading a table failed.
    Query,
    /// Creating a directory, or writing or flushing a file, failed.
    Write,
}

} // verus!
