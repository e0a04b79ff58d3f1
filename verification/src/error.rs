//! The failures that the control layer reports.
use vstd::prelude::*;

verus! {

/// `std::io::Error`, the failure of a file system operation. Nothing is known of its
/// contents: a value is only carried from the driver into [`Error::WalRemoval`].
#[verifier::external_type_specification]
#[verifier::external_body]
pub struct ExIoError(std::io::Error);

/// `std::path::PathBuf`, the location of a database. Nothing is known of its contents: a
/// value is only carried from the caller into [`Error::Open`].
#[verifier::external_type_specification]
#[verifier::external_body]
pub struct ExPathBuf(std::path::PathBuf);

/// Why an operation of this crate failed.
///
/// `E` is the engine's own error type. A value of it is never inspected, only wrapped.
/// Every failure ends the operation in which it occurs: nothing is retried, and nothing
/// that the engine was already asked to do is taken back.
#[derive(Debug)]
pub enum Error<E> {
    /// The database at the given path could not be listed or opened.
    Open(std::path::PathBuf, E),
    /// The engine failed to answer a property query.
    PropertyAccess(E),
    /// The engine has no value for the named property.
    PropertyNotSet(String),
    /// The database has no column family of the given name.
    ColumnFamily(String),
    /// The engine failed to read a value.
    ReadData(E),
    /// The database directory could not be listed, or a log segment in it could not be
    /// examined or removed.
    WalRemoval(std::io::Error),
    /// The database has no `meta` column family.
    UnknownColumnFamily,
    /// The stored value, given here, is not UTF-8 text.
    InvalidUtf8(Vec<u8>),
}

/// The mathematical content of an [`Error`]: names are sequences of characters, and the
/// rejected value is a sequence of bytes.
pub enum ErrorView<E> {
    Open(std::path::PathBuf, E),
    PropertyAccess(E),
    PropertyNotSet(Seq<char>),
    ColumnFamily(Seq<char>),
    ReadData(E),
    WalRemoval(std::io::Error),
    UnknownColumnFamily,
    InvalidUtf8(Seq<u8>),
}

impl<E> View for Error<E> {
    type V = ErrorView<E>;

    open spec fn view(&self) -> ErrorView<E> {
        match *self {
            Error::Open(path, cause) => ErrorView::Open(path, cause),
            Error::PropertyAccess(cause) => ErrorView::PropertyAccess(cause),
            Error::PropertyNotSet(name) => ErrorView::PropertyNotSet(name@),
            Error::ColumnFamily(name) => ErrorView::ColumnFamily(name@),
            Error::ReadData(cause) => ErrorView::ReadData(cause),
            Error::WalRemoval(cause) => ErrorView::WalRemoval(cause),
            Error::UnknownColumnFamily => ErrorView::UnknownColumnFamily,
            Error::InvalidUtf8(bytes) => ErrorView::InvalidUtf8(bytes@),
        }
    }
}

/// The content of the outcome of an operation that yields nothing but success or failure.
pub open spec fn outcome_view<E>(outcome: Result<(), Error<E>>) -> Result<(), ErrorView<E>> {
    match outcome {
        Ok(()) => Ok(()),
        Err(e) => Err(e@),
    }
}

} // verus!
