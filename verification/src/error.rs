//! The error taxonomy for buffer construction and validation.

use vstd::prelude::*;

verus! {

/// Why a buffer-constructing or buffer-validating operation failed.
///
/// All recoverable failures of this crate are reported through this type;
/// allocator exhaustion is fatal and is not represented here.
#[derive(Debug, Clone, Copy, PartialEq, Eq, Structural)]
pub enum Error {
    /// A zero byte was found before the final position of the input, during
    /// construction or append.  The input was rejected and nothing was
    /// mutated.
    InteriorNulByte,
    /// No zero byte is present at all.  Reported only by validation, after an
    /// unsafe caller has overwritten the buffer.
    MissingNulTerminator,
    /// The logical bytes are not valid UTF-8, when a text view was requested.
    Utf8Decode,
}

impl Error {
    /// A short human-readable description of the failure.
    pub fn message(&self) -> &'static str {
        match self {
            Error::InteriorNulByte => "interior zero byte found before the final position",
            Error::MissingNulTerminator => "no nul terminator byte is present",
            Error::Utf8Decode => "the bytes are not valid UTF-8",
        }
    }
}

} // verus!
