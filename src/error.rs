//! Errors of the pricing engine, the decoders and the swap planner.

use vstd::prelude::*;

verus! {

/// The runtime's error codes that this library produces.
#[derive(Clone, Copy, Debug, PartialEq, Eq, Structural)]
pub enum ProgramError {
    /// An account's data is shorter than its record layout.
    InvalidArgument,
    /// Instruction data that does not decode.
    InvalidInstructionData,
    /// Instruction data with bytes that the layout does not account for.
    BorshIoError,
    /// Fewer accounts than the instruction needs.
    NotEnoughAccountKeys,
    /// A required signature is absent.
    MissingRequiredSignature,
    /// An arithmetic step whose result cannot be represented.
    ArithmeticOverflow,
    /// No program address could be derived from the seeds.
    InvalidSeeds,
}

/// An error of this library.
#[derive(Clone, Copy, Debug, PartialEq, Eq, Structural)]
pub enum Error {
    ProgramError(ProgramError),
    InsufficientPoolReserve,
    /// Slippage at or above 100 percent (10 000 basis points).
    SlippageTooHigh,
}

/// The runtime error code that an error is reported as.
pub open spec fn error_code(e: Error) -> ProgramError {
    match e {
        Error::ProgramError(c) => c,
        Error::InsufficientPoolReserve => ProgramError::InvalidInstructionData,
        Error::SlippageTooHigh => ProgramError::InvalidArgument,
    }
}

impl Error {
    /// The runtime error code this error is reported as.
    pub fn into_program_error(self) -> (r: ProgramError)
        ensures
            r == error_code(self),
    {
        match self {
            Error::ProgramError(e) => e,
            Error::InsufficientPoolReserve => ProgramError::InvalidInstructionData,
            Error::SlippageTooHigh => ProgramError::InvalidArgument,
        }
    }

    /// A short description of the error.
    pub fn message(&self) -> String {
        match self {
            Error::ProgramError(_) => String::from_str("program error"),
            Error::InsufficientPoolReserve => String::from_str("insufficient pool reserve"),
            Error::SlippageTooHigh => String::from_str(
                "slippage must be within 0 to 100 percent in basis points",
            ),
        }
    }
}

} // verus!
