use vstd::prelude::*;

verus! {

/// A failure to decode bytes or text into a value.
#[derive(Clone, Copy, Debug, PartialEq, Eq, Structural, Hash, PartialOrd, Ord)]
pub enum BytesError {
    /// The bytes do not encode a value of the expected type.
    InvalidData,
    /// The input has `found` bytes where `expected` were needed.
    BadLength { found: usize, expected: usize },
    /// The text holds a character outside its alphabet, at `index`.
    InvalidChar { ch: char, index: usize },
}

/// Standard error for the interface.
#[derive(Clone, Copy, Debug, PartialEq, Eq, Structural, Hash, PartialOrd, Ord)]
pub enum Error {
    /// Serialization error.
    BytesError(BytesError),
    /// The pairing equation of a signature does not hold.
    InvalidSignature,
    /// A point is off the curve, outside the prime-order subgroup, or the identity.
    InvalidPoint,
    /// Tried to aggregate an empty list of public keys.
    NoKeysProvided,
}

impl Error {
    /// The error for an input of `found` bytes where `expected` were needed.
    pub fn bad_length(found: usize, expected: usize) -> (r: Error)
        ensures
            r == Error::BytesError(BytesError::BadLength { found, expected }),
    {
        Error::BytesError(BytesError::BadLength { found, expected })
    }

    /// The error for the character `ch`, at `index`, outside the alphabet.
    pub fn invalid_char(ch: char, index: usize) -> (r: Error)
        ensures
            r == Error::BytesError(BytesError::InvalidChar { ch, index }),
    {
        Error::BytesError(BytesError::InvalidChar { ch, index })
    }
}

impl From<BytesError> for Error {
    fn from(e: BytesError) -> (r: Error) {
        Error::BytesError(e)
    }
}

impl vstd::std_specs::convert::FromSpecImpl<BytesError> for Error {
    open spec fn obeys_from_spec() -> bool {
        true
    }

    open spec fn from_spec(e: BytesError) -> Error {
        Error::BytesError(e)
    }
}

} // verus!
