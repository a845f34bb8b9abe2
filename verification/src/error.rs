//! The closed set of ways in which handling a frame can fail, and the stable
//! status code that stands for each of them at the host boundary.

use vstd::prelude::*;

verus! {

/// Why a frame could not be turned into a record.
#[derive(Clone, Copy, Debug, PartialEq, Eq, Structural)]
pub enum DecodeError {
    /// The buffer is shorter than the field being read requires.
    InsufficientData,
    /// The mode bits hold a pattern that names no mode.
    UnknownMode,
    /// The timeframe value names no timeframe.
    UnknownTimeframe,
    /// The type value names no frame type.
    UnknownType,
    /// The record could not be rendered in the output text format.
    SerializationFailure,
}

/// The status code that reports success.
pub const STATUS_OK: i32 = 0;

impl DecodeError {
    /// The status code of this error: negative, and different for each error.
    pub open spec fn spec_code(self) -> int {
        match self {
            DecodeError::InsufficientData => -1,
            DecodeError::UnknownMode => -10,
            DecodeError::UnknownTimeframe => -11,
            DecodeError::UnknownType => -12,
            DecodeError::SerializationFailure => -100,
        }
    }

    /// Returns the status code of this error.
    pub fn code(&self) -> (c: i32)
        ensures
            c == self.spec_code(),
            c < 0,
    {
        match self {
            DecodeError::InsufficientData => -1,
            DecodeError::UnknownMode => -10,
            DecodeError::UnknownTimeframe => -11,
            DecodeError::UnknownType => -12,
            DecodeError::SerializationFailure => -100,
        }
    }

    /// Every error has a negative status code, so none can be taken for
    /// success.
    pub proof fn code_is_negative(e: DecodeError)
        ensures
            e.spec_code() < 0,
            e.spec_code() != STATUS_OK,
    {
    }

    /// Two errors with the same status code are the same error.
    pub proof fn code_is_injective(a: DecodeError, b: DecodeError)
        requires
            a.spec_code() == b.spec_code(),
        ensures
            a == b,
    {
    }
}

/// The status code of an outcome: `STATUS_OK` for success, the error's own
/// code for a failure.
pub open spec fn spec_status_code<T>(outcome: Result<T, DecodeError>) -> int {
    match outcome {
        Ok(_) => STATUS_OK as int,
        Err(e) => e.spec_code(),
    }
}

/// Returns the status code that reports `outcome` to the host.
pub fn status_code<T>(outcome: &Result<T, DecodeError>) -> (c: i32)
    ensures
        c == spec_status_code(*outcome),
        c == 0 <==> outcome is Ok,
        c <= 0,
{
    match outcome {
        Ok(_) => STATUS_OK,
        Err(e) => e.code(),
    }
}

} // verus!
