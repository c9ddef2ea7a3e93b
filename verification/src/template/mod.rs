//! A record program: one record for each owner, at an address of the
//! program's own, holding who owns it.

pub mod error;
pub mod instruction;
pub mod processor;
pub mod state;
