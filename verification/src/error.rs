//! The failures a pressure monitor reports.

use vstd::prelude::*;

verus! {

/// The error type of `std::io`, carried through untouched: the library never
/// looks inside one.
#[verifier::external_type_specification]
#[verifier::external_body]
pub struct ExIoError(std::io::Error);

/// An operating-system error number, as `errno` holds it after a failed
/// system call.
#[derive(Clone, Copy, Debug, PartialEq, Eq, Structural)]
pub struct Errno {
    pub raw: i32,
}

/// Whether the `nix` crate reads an error number as `EWOULDBLOCK`, the
/// error of a non-blocking operation that found nothing to do.
pub uninterp spec fn errno_is_would_block(raw: i32) -> bool;

/// Turns the number into `nix::errno::Errno` with `from_raw` and compares it
/// with the constant `EWOULDBLOCK` of that type. The contract only gives the
/// answer its name.
#[verifier::external_body]
fn raw_is_would_block(raw: i32) -> (b: bool)
    ensures
        b == errno_is_would_block(raw),
{
    nix::errno::Errno::from_raw(raw) == nix::errno::Errno::EWOULDBLOCK
}

impl Errno {
    /// Whether this is the error of a non-blocking operation that found
    /// nothing to do.
    pub fn is_would_block(self) -> (b: bool)
        ensures
            b == errno_is_would_block(self.raw),
    {
        raw_is_would_block(self.raw)
    }
}

/// Why the lookup of an environment variable gave no text.
#[derive(Debug, PartialEq, Eq)]
pub enum VarError {
    /// The variable is not set.
    NotPresent,
    /// The variable is set, but its value is not valid Unicode. The bytes of
    /// the value are kept.
    NotUnicode(Vec<u8>),
}

/// Why a text is not standard padded base64.
#[derive(Clone, Copy, Debug, PartialEq, Eq, Structural)]
pub enum DecodeError {
    /// A byte outside the alphabet, or a padding byte in the wrong place:
    /// its offset and the byte.
    InvalidByte(usize, u8),
    /// The number of symbols cannot be the length of an encoding.
    InvalidLength(usize),
    /// The last symbol carries bits that no encoder would have set: its
    /// offset and the byte.
    InvalidLastSymbol(usize, u8),
    /// The padding is missing or not canonical.
    InvalidPadding,
}

/// Everything that can go wrong while a monitor is set up or waits.
#[derive(Debug)]
pub enum Error {
    /// A system call on the source failed with this error number.
    Nix(Errno),
    /// An operation of the standard library on the source failed.
    Io(std::io::Error),
    /// An environment variable is set but unusable.
    VarError(VarError),
    /// The arm configuration is set but is not valid base64.
    Base64(DecodeError),
    /// The source is neither a regular file, a named pipe nor a socket.
    UnexpectedFileType,
}

impl Error {
    /// True for the errors that come from the configuration in the
    /// environment rather than from the source itself.
    pub open spec fn configuration(&self) -> bool {
        self is VarError || self is Base64
    }

    /// Whether the error comes from the configuration in the environment
    /// rather than from the source itself.
    #[verifier::when_used_as_spec(configuration)]
    pub fn is_configuration(&self) -> (b: bool)
        ensures
            b == self.configuration(),
    {
        match self {
            Error::VarError(_) | Error::Base64(_) => true,
            _ => false,
        }
    }
}

impl From<Errno> for Error {
    fn from(errno: Errno) -> (e: Error) {
        Error::Nix(errno)
    }
}

impl vstd::std_specs::convert::FromSpecImpl<Errno> for Error {
    open spec fn obeys_from_spec() -> bool {
        true
    }

    open spec fn from_spec(errno: Errno) -> Error {
        Error::Nix(errno)
    }
}

impl From<std::io::Error> for Error {
    fn from(failure: std::io::Error) -> (e: Error) {
        Error::Io(failure)
    }
}

impl vstd::std_specs::convert::FromSpecImpl<std::io::Error> for Error {
    open spec fn obeys_from_spec() -> bool {
        true
    }

    open spec fn from_spec(failure: std::io::Error) -> Error {
        Error::Io(failure)
    }
}

impl From<VarError> for Error {
    fn from(lookup: VarError) -> (e: Error) {
        Error::VarError(lookup)
    }
}

impl vstd::std_specs::convert::FromSpecImpl<VarError> for Error {
    open spec fn obeys_from_spec() -> bool {
        true
    }

    open spec fn from_spec(lookup: VarError) -> Error {
        Error::VarError(lookup)
    }
}

impl From<DecodeError> for Error {
    fn from(decoding: DecodeError) -> (e: Error) {
        Error::Base64(decoding)
    }
}

impl vstd::std_specs::convert::FromSpecImpl<DecodeError> for Error {
    open spec fn obeys_from_spec() -> bool {
        true
    }

    open spec fn from_spec(decoding: DecodeError) -> Error {
        Error::Base64(decoding)
    }
}

} // verus!
