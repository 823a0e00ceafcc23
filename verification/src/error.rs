//! The ways in which reading or writing an XYZ image can fail.

use vstd::prelude::*;

verus! {

/// A failure without what it carries: the value that contracts speak of.
#[derive(Clone, Copy, Debug, PartialEq, Eq, Structural)]
pub enum ErrorKind {
    /// The first four bytes are not the magic number.
    InvalidFormat,
    /// The input ends before the header, the palette or the pixels are
    /// complete.
    UnexpectedEndOfInput,
    /// The zlib stream is malformed.
    DecompressionError,
    /// The zlib stream holds more than the palette and the pixels.
    TrailingData,
    /// A failure of the underlying stream, handed on as it came.
    Io,
}

/// A failure of [`crate::read`] or [`crate::write`].
#[derive(Debug)]
pub enum Error {
    /// The first four bytes are not the magic number.
    InvalidFormat,
    /// The input ends before the header, the palette or the pixels are
    /// complete.
    UnexpectedEndOfInput,
    /// The zlib stream is malformed; the decoder's own error is inside.
    DecompressionError(std::io::Error),
    /// The zlib stream holds more than the palette and the pixels.
    TrailingData,
    /// A failure of the underlying stream, handed on as it came.
    Io(std::io::Error),
}

impl Error {
    /// Which failure this is.
    pub open spec fn spec_kind(&self) -> ErrorKind {
        match self {
            Error::InvalidFormat => ErrorKind::InvalidFormat,
            Error::UnexpectedEndOfInput => ErrorKind::UnexpectedEndOfInput,
            Error::DecompressionError(_) => ErrorKind::DecompressionError,
            Error::TrailingData => ErrorKind::TrailingData,
            Error::Io(_) => ErrorKind::Io,
        }
    }

    /// Which failure this is.
    #[verifier::when_used_as_spec(spec_kind)]
    pub fn kind(&self) -> (kind: ErrorKind)
        ensures
            kind == self.spec_kind(),
    {
        match self {
            Error::InvalidFormat => ErrorKind::InvalidFormat,
            Error::UnexpectedEndOfInput => ErrorKind::UnexpectedEndOfInput,
            Error::DecompressionError(_) => ErrorKind::DecompressionError,
            Error::TrailingData => ErrorKind::TrailingData,
            Error::Io(_) => ErrorKind::Io,
        }
    }
}

/// A result as contracts speak of it: the view of what was returned, or the
/// kind of the failure.
pub open spec fn outcome<T: View>(r: Result<T, Error>) -> Result<T::V, ErrorKind> {
    match r {
        Ok(value) => Ok(value@),
        Err(e) => Err(e.kind()),
    }
}

/// The call failed, and with this kind of failure.
pub open spec fn fails_with<T>(r: Result<T, Error>, kind: ErrorKind) -> bool {
    match r {
        Ok(_) => false,
        Err(e) => e.kind() == kind,
    }
}

} // verus!
