use vstd::prelude::*;

verus! {

/// The two ways a buffer can be structurally malformed.
///
/// `TooShort` means the buffer is shorter than the minimum length the
/// operation needs (12 bytes for a witness header, or the requested
/// witness length for a split). `InvalidLength` means the buffer is long
/// enough but its trailing portion is not a whole number of 32-byte
/// field elements. Buffer contents are never inspected: only the shape
/// of the buffer can be rejected.
#[derive(Debug, Clone, PartialEq, Eq)]
pub enum DecodeError {
    TooShort,
    InvalidLength,
}

/// The description that `DecodeError::message` returns for each variant.
pub open spec fn spec_message(e: DecodeError) -> Seq<char> {
    match e {
        DecodeError::TooShort => "too short"@,
        DecodeError::InvalidLength => "invalid length"@,
    }
}

impl DecodeError {
    /// A short human-readable description of the error.
    pub fn message(&self) -> (r: &'static str)
        ensures
            r@ == spec_message(*self),
    {
        match self {
            DecodeError::TooShort => "too short",
            DecodeError::InvalidLength => "invalid length",
        }
    }
}

} // verus!
