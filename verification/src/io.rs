//! The I/O errors that the connections return, as this library sees them.
use vstd::prelude::*;

verus! {

#[verifier::external_type_specification]
#[verifier::external_body]
pub struct ExIoError(std::io::Error);

/// The kinds of I/O error that this library tells apart.
#[derive(Debug, Clone, Copy, PartialEq, Eq, Structural)]
pub enum IoErrorKind {
    /// `std::io::ErrorKind::NotFound`.
    NotFound,
    /// `std::io::ErrorKind::WouldBlock`.
    WouldBlock,
    /// `std::io::ErrorKind::NotConnected`.
    NotConnected,
    /// `std::io::ErrorKind::InvalidInput`.
    InvalidInput,
    /// Any other kind.
    Other,
}

/// What `std::io::Error::kind` returns for `e`, as one of the kinds above.
pub uninterp spec fn io_error_kind(e: std::io::Error) -> IoErrorKind;

/// `std::io::Error::kind`: the kind of the error, which is the kind it was
/// made with.
#[verifier::external_body]
pub(crate) fn error_kind(e: &std::io::Error) -> (r: IoErrorKind)
    ensures
        r == io_error_kind(*e),
{
    match e.kind() {
        std::io::ErrorKind::NotFound => IoErrorKind::NotFound,
        std::io::ErrorKind::WouldBlock => IoErrorKind::WouldBlock,
        std::io::ErrorKind::NotConnected => IoErrorKind::NotConnected,
        std::io::ErrorKind::InvalidInput => IoErrorKind::InvalidInput,
        _ => IoErrorKind::Other,
    }
}

/// `std::io::Error::new`: an error of the given kind with a message; its
/// `kind` is the kind it was made with.
#[verifier::external_body]
pub(crate) fn io_error_new(kind: IoErrorKind, msg: &str) -> (r: std::io::Error)
    ensures
        io_error_kind(r) == kind,
{
    let k = match kind {
        IoErrorKind::NotFound => std::io::ErrorKind::NotFound,
        IoErrorKind::WouldBlock => std::io::ErrorKind::WouldBlock,
        IoErrorKind::NotConnected => std::io::ErrorKind::NotConnected,
        IoErrorKind::InvalidInput => std::io::ErrorKind::InvalidInput,
        IoErrorKind::Other => std::io::ErrorKind::Other,
    };
    std::io::Error::new(k, msg)
}

/// `<std::io::Error as From<ErrorKind>>::from`: an error of the given kind
/// with no message; its `kind` is the kind it was made with.
#[verifier::external_body]
pub(crate) fn io_error_from_kind(kind: IoErrorKind) -> (r: std::io::Error)
    ensures
        io_error_kind(r) == kind,
{
    let k = match kind {
        IoErrorKind::NotFound => std::io::ErrorKind::NotFound,
        IoErrorKind::WouldBlock => std::io::ErrorKind::WouldBlock,
        IoErrorKind::NotConnected => std::io::ErrorKind::NotConnected,
        IoErrorKind::InvalidInput => std::io::ErrorKind::InvalidInput,
        IoErrorKind::Other => std::io::ErrorKind::Other,
    };
    std::io::Error::from(k)
}

} // verus!
