//! Error taxonomy of the access layer.
use vstd::prelude::*;

verus! {

/// Status code of a successful native call.
pub const STATE_SUCCESS: u32 = 0;

/// Status code of a failed native call.
pub const STATE_ERROR: u32 = 1;

/// Why a cell or a value could not be converted.
#[derive(Debug)]
pub enum ConversionError {
    /// The bytes or numbers do not form a value of the type (bad UTF-8, an impossible date).
    Invalid(String),
    /// The value cannot be held without losing digits.
    PrecisionLoss(String),
    /// The column type is not one that this layer decodes.
    Unsupported(String),
    /// A value was asked for where the engine holds none.
    NullValue,
}

/// Errors of the access layer.
#[derive(Debug)]
pub enum Error {
    /// A native call failed; carries its status code and the engine's message when it gave one.
    EngineFailure { code: u32, message: Option<String> },
    /// A cell could not be decoded.
    Conversion(ConversionError),
    /// A column index outside the result.
    InvalidColumnIndex(usize),
    /// A path that cannot be handed to the engine.
    InvalidPath,
    /// `fetch` was called a second time on the same statement.
    AlreadyExecuted,
}

/// The failure that a native status code stands for, with the message that came with it.
pub fn error_from_duckdb_code(code: u32, message: Option<String>) -> (r: Result<(), Error>)
    ensures
        r == Err::<(), Error>(Error::EngineFailure { code, message }),
{
    Err(Error::EngineFailure { code, message })
}

/// Turns the status of a native call into a result: success, or the failure with its message.
pub fn result_from_state(code: u32, message: Option<String>) -> (r: Result<(), Error>)
    ensures
        code == STATE_SUCCESS ==> r is Ok,
        code != STATE_SUCCESS ==> r == Err::<(), Error>(Error::EngineFailure { code, message }),
{
    if code == STATE_SUCCESS {
        Ok(())
    } else {
        error_from_duckdb_code(code, message)
    }
}

} // verus!
