use vstd::prelude::*;

verus! {

/// Everything that can go wrong in the store.
#[derive(Debug, Clone, PartialEq, Eq)]
pub enum Error {
    /// A table that was to be opened does not exist.
    NotFound,
    /// A table that was to be created exists already.
    AlreadyExists,
    /// A table handle that does not name an open table.
    InvalidHandle,
    /// `first_key` was asked for after the cursor had moved past the first key.
    InvalidCursorState,
    /// A file name that is not the hex encoding of a key.
    InvalidHex,
    /// The copy-on-write clone of the database tree could not be made.
    SnapshotFailure(String),
    /// The ordered index of a table failed.
    IndexFailure(String),
    /// Any other filesystem failure.
    Io(String),
}

} // verus!
