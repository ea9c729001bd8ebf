use vstd::prelude::*;

verus! {

/// Why a buffer could not be decoded.
#[derive(Debug, Clone, Copy, PartialEq, Eq, Structural)]
pub enum Error {
    /// The buffer is not longer than the minimum frame size.
    HeaderTooSmall,
    /// The first two bytes are not the sync characters.
    BadSignature,
    /// The declared payload length reaches past the end of the buffer.
    BufferTooShort,
    /// The buffer holds bytes after the checksum of the declared frame.
    TrailingBytes,
}

impl Error {
    /// A short description of the error, for diagnostics.
    pub fn message(&self) -> &'static str {
        match self {
            Error::HeaderTooSmall => "Header size is too small",
            Error::BadSignature => "Header signature is not of expected values",
            Error::BufferTooShort => "Buffer is shorter than the declared frame",
            Error::TrailingBytes => "Buffer holds bytes after the declared frame",
        }
    }
}

} // verus!
