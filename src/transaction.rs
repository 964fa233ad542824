use crate::error::Error;
use vstd::prelude::*;

verus! {

/// How a filesystem operation failed, as far as the store's rules care, with
/// the description of the failure.
#[derive(Debug, Clone, PartialEq, Eq)]
pub enum IoFailure {
    /// The file or directory does not exist.
    NotFound(String),
    /// The file or directory exists already.
    AlreadyExists(String),
    /// Any other failure.
    Other(String),
}

/// The error that an I/O failure becomes where no rule excuses or names it.
pub open spec fn io_error(f: IoFailure) -> Error {
    match f {
        IoFailure::NotFound(m) => Error::Io(m),
        IoFailure::AlreadyExists(m) => Error::Io(m),
        IoFailure::Other(m) => Error::Io(m),
    }
}

/// The view of the outcome of reading a file.
pub open spec fn read_view(read: Result<Vec<u8>, IoFailure>) -> Result<Seq<u8>, IoFailure> {
    match read {
        Ok(v) => Ok(v@),
        Err(f) => Err(f),
    }
}

/// The view of the result of a point lookup.
pub open spec fn lookup_view(r: Result<Option<Vec<u8>>, Error>) -> Result<Option<Seq<u8>>, Error> {
    match r {
        Ok(Some(v)) => Ok(Some(v@)),
        Ok(None) => Ok(None),
        Err(e) => Err(e),
    }
}

/// A point lookup from the outcome of reading the key's file: the file's
/// bytes, `None` where the file does not exist, and any other failure as `Io`.
pub open spec fn lookup_outcome(read: Result<Seq<u8>, IoFailure>) -> Result<Option<Seq<u8>>, Error> {
    match read {
        Ok(v) => Ok(Some(v)),
        Err(IoFailure::NotFound(_)) => Ok(None),
        Err(f) => Err(io_error(f)),
    }
}

/// A deletion from the outcome of removing the key's file: a file that does
/// not exist is no error, any other failure is `Io`.
pub open spec fn removal_outcome(removed: Result<(), IoFailure>) -> Result<(), Error> {
    match removed {
        Ok(()) => Ok(()),
        Err(IoFailure::NotFound(_)) => Ok(()),
        Err(f) => Err(io_error(f)),
    }
}

/// A table creation from the outcome of creating its directory: one that
/// exists already is `AlreadyExists`, any other failure is `Io`.
pub open spec fn creation_outcome(created: Result<(), IoFailure>) -> Result<(), Error> {
    match created {
        Ok(()) => Ok(()),
        Err(IoFailure::AlreadyExists(_)) => Err(Error::AlreadyExists),
        Err(f) => Err(io_error(f)),
    }
}

fn to_io_error(f: IoFailure) -> (r: Error)
    ensures
        r == io_error(f),
{
    match f {
        IoFailure::NotFound(m) => Error::Io(m),
        IoFailure::AlreadyExists(m) => Error::Io(m),
        IoFailure::Other(m) => Error::Io(m),
    }
}

/// The result of a point lookup, from the outcome of reading the key's file.
pub fn lookup_result(read: Result<Vec<u8>, IoFailure>) -> (r: Result<Option<Vec<u8>>, Error>)
    ensures
        lookup_view(r) == lookup_outcome(read_view(read)),
{
    match read {
        Ok(bytes) => Ok(Some(bytes)),
        Err(IoFailure::NotFound(_)) => Ok(None),
        Err(f) => Err(to_io_error(f)),
    }
}

/// The result of removing a key's file; deleting is idempotent.
pub fn removal_result(removed: Result<(), IoFailure>) -> (r: Result<(), Error>)
    ensures
        r == removal_outcome(removed),
{
    match removed {
        Ok(()) => Ok(()),
        Err(IoFailure::NotFound(_)) => Ok(()),
        Err(f) => Err(to_io_error(f)),
    }
}

/// The result of creating a table's directory.
pub fn creation_result(created: Result<(), IoFailure>) -> (r: Result<(), Error>)
    ensures
        r == creation_outcome(created),
{
    match created {
        Ok(()) => Ok(()),
        Err(IoFailure::AlreadyExists(_)) => Err(Error::AlreadyExists),
        Err(f) => Err(to_io_error(f)),
    }
}

/// Whether a table may be opened: its directory must exist, else `NotFound`.
pub fn opening_result(is_dir: bool) -> (r: Result<(), Error>)
    ensures
        is_dir <==> r is Ok,
        !is_dir ==> r == Err::<(), Error>(Error::NotFound),
{
    if is_dir {
        Ok(())
    } else {
        Err(Error::NotFound)
    }
}

/// A value written to a key's file is what a lookup of that key returns, in
/// the transaction that wrote it and in any later one that reads the same
/// file back.
pub proof fn lemma_put_then_get(value: Seq<u8>)
    ensures
        lookup_outcome(Ok(value)) == Ok::<Option<Seq<u8>>, Error>(Some(value)),
{
}

/// Deleting a key whose file is absent succeeds, and a lookup of a key whose
/// file is gone returns `None`.
pub proof fn lemma_delete_then_get(missing: IoFailure)
    requires
        missing is NotFound,
    ensures
        removal_outcome(Err(missing)) == Ok::<(), Error>(()),
        lookup_outcome(Err(missing)) == Ok::<Option<Seq<u8>>, Error>(None),
{
}

} // verus!
