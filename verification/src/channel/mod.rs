//! A two-party payment channel.
//!
//! Two parties keep an account of what each is owed and settle it on the
//! ledger. Either may propose a new split of the balances with a fresher
//! nonce; the split is committed only when the other party proposes the same.
//! Each commit restarts the challenge period, and once the channel has
//! expired each party may withdraw what the last committed split owes it.
//! The value itself is held by a treasury account, which the operations keep
//! at or above the sum of what both parties are owed.
//!
//! [`state`] holds the record and its model, [`ops`] the five operations,
//! [`model`] what each operation does as a function of the state, and
//! [`laws`] what follows for every sequence of operations. [`rules`] and
//! [`arith`] hold the checks that the operations are made of, and [`layout`]
//! the bytes of the record.

pub mod arith;
pub mod laws;
pub mod layout;
pub mod model;
pub mod ops;
pub mod rules;
pub mod state;
