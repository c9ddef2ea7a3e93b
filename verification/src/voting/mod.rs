//! A ballot with delegation.
//!
//! A chairperson opens a ballot with a list of proposals and gives voters
//! the right to vote, one account of weight one for each. A voter votes for
//! a proposal, or hands its weight to another voter.

pub mod ballot;
pub mod error;
pub mod instruction;
pub mod keys;
pub mod processor;
pub mod state;
