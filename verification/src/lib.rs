//! On-chain programs for a shared ledger, with their rules proved.
//!
//! The centre of the crate is [`channel`], a two-party payment channel that
//! is settled by an optimistic propose, challenge and finalise procedure.
//! The other modules hold smaller programs: a ballot with delegation
//! ([`voting`]), a staking escrow ([`staking`]), a shared wallet
//! ([`wallet`]), a username registry ([`identity`]), a blog ([`blog`]), a
//! proxy for the token program ([`token`]) and a record program
//! ([`template`]).
//!
//! Nothing here talks to the ledger. Every operation takes the accounts it
//! works on as plain values, and hands back what the ledger has to store and
//! what has to be asked of other programs. Who has signed, and whether an
//! account lives at the address that its seeds give, is for the ledger to
//! establish before an operation is called; where an operation itself has to
//! know a derived address, it derives it through [`ledger`].

pub mod address;
pub mod ledger;
pub mod wire;
pub mod channel;
pub mod voting;
pub mod template;
pub mod token;
pub mod staking;
pub mod wallet;
pub mod identity;
pub mod blog;
