//! The errors of the ballot program.

use vstd::prelude::*;
use crate::ledger::ProgramError;

verus! {

/// Why the ballot program refuses an instruction.
#[derive(Clone, Copy, Debug, PartialEq, Eq, Structural)]
pub enum VotingError {
    NoProposals,
    TooManyProposals,
    AlreadyVoted,
    DelegateChainCycle,
    MaxDelegateChainLimitExceeded,
    InvalidVote,
}

impl VotingError {
    /// The number under which the ledger reports the error.
    pub open spec fn number(self) -> u32 {
        match self {
            VotingError::NoProposals => 0,
            VotingError::TooManyProposals => 1,
            VotingError::AlreadyVoted => 2,
            VotingError::DelegateChainCycle => 3,
            VotingError::MaxDelegateChainLimitExceeded => 4,
            VotingError::InvalidVote => 5,
        }
    }

    /// The number under which the ledger reports the error.
    pub fn code(&self) -> (r: u32)
        ensures
            r == self.number(),
    {
        match self {
            VotingError::NoProposals => 0,
            VotingError::TooManyProposals => 1,
            VotingError::AlreadyVoted => 2,
            VotingError::DelegateChainCycle => 3,
            VotingError::MaxDelegateChainLimitExceeded => 4,
            VotingError::InvalidVote => 5,
        }
    }

    /// The error that the ledger reports under `code`, if there is one.
    pub fn from_u32(code: u32) -> (r: Option<VotingError>)
        ensures
            match r {
                Some(e) => e.number() == code,
                None => code > 5,
            },
    {
        match code {
            0 => Some(VotingError::NoProposals),
            1 => Some(VotingError::TooManyProposals),
            2 => Some(VotingError::AlreadyVoted),
            3 => Some(VotingError::DelegateChainCycle),
            4 => Some(VotingError::MaxDelegateChainLimitExceeded),
            5 => Some(VotingError::InvalidVote),
            _ => None,
        }
    }

    /// The name of the type, for those who decode an error number.
    pub fn type_of() -> (r: &'static str)
        ensures
            r@ == "VotingError"@,
    {
        "VotingError"
    }

    /// What the error says of itself.
    pub open spec fn message(self) -> Seq<char> {
        match self {
            VotingError::NoProposals => "No proposal given"@,
            VotingError::TooManyProposals => "Too many proposals given"@,
            VotingError::AlreadyVoted => "Already voted"@,
            VotingError::DelegateChainCycle => "Delegate chain has a cycle"@,
            VotingError::MaxDelegateChainLimitExceeded => "Max delegate chain limit exceeded"@,
            VotingError::InvalidVote => "Invalid vote"@,
        }
    }

    /// What the error says of itself.
    pub fn to_string(&self) -> (r: String)
        ensures
            r@ == self.message(),
    {
        match self {
            VotingError::NoProposals => "No proposal given".to_owned(),
            VotingError::TooManyProposals => "Too many proposals given".to_owned(),
            VotingError::AlreadyVoted => "Already voted".to_owned(),
            VotingError::DelegateChainCycle => "Delegate chain has a cycle".to_owned(),
            VotingError::MaxDelegateChainLimitExceeded => "Max delegate chain limit exceeded"
                .to_owned(),
            VotingError::InvalidVote => "Invalid vote".to_owned(),
        }
    }

    /// The line that the program writes to the log for the error.
    pub open spec fn log_line(self) -> Seq<char> {
        match self {
            VotingError::NoProposals => "Error: EmptyProposals"@,
            VotingError::TooManyProposals => "Error: TooManyProposals"@,
            VotingError::AlreadyVoted => "Error: AlreadyVoted"@,
            VotingError::DelegateChainCycle => "Error: DelegateChainCycle"@,
            VotingError::MaxDelegateChainLimitExceeded => "Error: MaxDelegateChainLimitExceeded"@,
            VotingError::InvalidVote => "Error: InvalidVote"@,
        }
    }

    /// The line to write to the log for the error.
    pub fn print(&self) -> (r: &'static str)
        ensures
            r@ == self.log_line(),
    {
        match self {
            VotingError::NoProposals => "Error: EmptyProposals",
            VotingError::TooManyProposals => "Error: TooManyProposals",
            VotingError::AlreadyVoted => "Error: AlreadyVoted",
            VotingError::DelegateChainCycle => "Error: DelegateChainCycle",
            VotingError::MaxDelegateChainLimitExceeded => "Error: MaxDelegateChainLimitExceeded",
            VotingError::InvalidVote => "Error: InvalidVote",
        }
    }
}

impl From<VotingError> for ProgramError {
    /// The error as the ledger reports it: a custom error with its number.
    fn from(e: VotingError) -> (r: ProgramError) {
        ProgramError::Custom(e.code())
    }
}

impl vstd::std_specs::convert::FromSpecImpl<VotingError> for ProgramError {
    open spec fn obeys_from_spec() -> bool {
        true
    }

    open spec fn from_spec(e: VotingError) -> ProgramError {
        ProgramError::Custom(e.number())
    }
}

} // verus!
