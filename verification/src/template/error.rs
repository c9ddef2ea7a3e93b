//! The errors of the record program.

use vstd::prelude::*;
use crate::ledger::ProgramError;

verus! {

/// Why the record program refuses an instruction.
#[derive(Clone, Copy, Debug, PartialEq, Eq, Structural)]
pub enum CustomError {
    TooFewLamports,
}

/// The outcome of a step of the record program.
pub type CustomProgramResult = Result<(), CustomError>;

impl CustomError {
    /// The number under which the ledger reports the error.
    pub open spec fn number(self) -> u32 {
        0
    }

    /// The number under which the ledger reports the error.
    pub fn code(&self) -> (r: u32)
        ensures
            r == self.number(),
    {
        0
    }

    /// The error that the ledger reports under `code`, if there is one.
    pub fn from_u32(code: u32) -> (r: Option<CustomError>)
        ensures
            r == (if code == 0 {
                Some(CustomError::TooFewLamports)
            } else {
                None
            }),
    {
        if code == 0 {
            Some(CustomError::TooFewLamports)
        } else {
            None
        }
    }

    /// The name of the type, for those who decode an error number.
    pub fn type_of() -> (r: &'static str)
        ensures
            r@ == "CustomError"@,
    {
        "CustomError"
    }

    /// What the error says of itself.
    pub fn to_string(&self) -> (r: String)
        ensures
            r@ == "Too few lamports for record creation"@,
    {
        "Too few lamports for record creation".to_owned()
    }

    /// The line to write to the log for the error.
    pub fn print(&self) -> (r: &'static str)
        ensures
            r@ == "Error: Too few lamports for record creation"@,
    {
        "Error: Too few lamports for record creation"
    }
}

impl From<CustomError> for ProgramError {
    /// The error as the ledger reports it: a custom error with its number.
    fn from(e: CustomError) -> (r: ProgramError) {
        ProgramError::Custom(e.code())
    }
}

impl vstd::std_specs::convert::FromSpecImpl<CustomError> for ProgramError {
    open spec fn obeys_from_spec() -> bool {
        true
    }

    open spec fn from_spec(e: CustomError) -> ProgramError {
        ProgramError::Custom(e.number())
    }
}

} // verus!
