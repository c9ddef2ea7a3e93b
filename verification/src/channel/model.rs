//! The channel and its treasury as a state machine.
//!
//! Each operation is described twice here: by the error with which it is
//! refused, if it is, and by the state that it leaves where it is not.

use vstd::prelude::*;
use crate::address::Address;
use crate::channel::rules::{coverage, surplus, total_needed, transfer_refusal};
use crate::channel::state::{ChannelError, ChannelState, PendingState};
use crate::ledger::ProgramError;

verus! {

/// Why an operation on a channel is refused.
#[derive(Clone, Copy, Debug, PartialEq, Eq, Structural)]
pub enum Failure {
    /// One of the channel's own errors.
    Channel(ChannelError),
    /// A refusal in the ledger's own words.
    Program(ProgramError),
    /// The caller is not the authority that the record names.
    NotAuthority,
}

/// A channel together with what its treasury holds.
pub struct Custody {
    pub channel: ChannelState,
    pub treasury: u64,
}

impl Custody {
    /// The treasury holds at least what both parties are owed.
    pub open spec fn solvent(self) -> bool {
        self.channel.owed() <= self.treasury
    }
}

impl ChannelState {
    /// Whether a call by `caller` with `balances` and `nonce` confirms the
    /// pending proposal: another party has proposed the very same.
    pub open spec fn confirmed_by(self, caller: Seq<u8>, balances: Seq<u64>, nonce: u64) -> bool {
        self.pending matches PendingState::Proposed { proposer, balances: b, nonce: n } && proposer
            != caller && b == balances && n == nonce
    }
}

/// Why a channel cannot be opened, if it cannot. `derived` is the treasury
/// address that belongs to the program, with its bump seed.
pub open spec fn open_refusal(
    treasury_key: Seq<u8>,
    treasury_owner: Seq<u8>,
    treasury_lamports: u64,
    treasury_data_len: nat,
    funds: u64,
    program_id: Seq<u8>,
    derived: Option<(Seq<u8>, u8)>,
    users: Seq<Seq<u8>>,
    balances: Seq<u64>,
    challenge_period: u64,
    expires_at: u64,
    now: u64,
    reserve: u64,
) -> Option<Failure> {
    if users[0] == users[1] {
        Some(Failure::Channel(ChannelError::DuplicateUsers))
    } else if challenge_period == 0 {
        Some(Failure::Channel(ChannelError::InvalidChallengePeriod))
    } else if expires_at <= now {
        Some(Failure::Channel(ChannelError::InvalidChallengePeriod))
    } else if treasury_owner != program_id && treasury_owner != Address::zero() {
        Some(Failure::Program(ProgramError::IllegalOwner))
    } else if treasury_lamports > 0 || treasury_data_len > 0 {
        Some(Failure::Program(ProgramError::AccountAlreadyInitialized))
    } else if total_needed(balances, reserve) > u64::MAX {
        Some(Failure::Channel(ChannelError::BalanceOverflow))
    } else if !(derived matches Some((key, _)) && key == treasury_key) {
        Some(Failure::Program(ProgramError::InvalidArgument))
    } else if funds < total_needed(balances, reserve) {
        Some(Failure::Program(ProgramError::InsufficientFunds))
    } else {
        None
    }
}

/// The record of a channel that has just been opened.
pub open spec fn opened(
    authority: Seq<u8>,
    users: Seq<Seq<u8>>,
    balances: Seq<u64>,
    challenge_period: u64,
    expires_at: u64,
    bump_seed: u8,
    treasury_bump_seed: u8,
) -> ChannelState {
    ChannelState {
        authority,
        users,
        balances,
        challenge_period,
        expires_at,
        nonce: 0,
        pending: PendingState::Empty,
        bump_seed,
        treasury_bump_seed,
    }
}

/// Why a proposal is refused, if it is.
pub open spec fn exit_refusal(
    s: Custody,
    caller: Seq<u8>,
    balances: Seq<u64>,
    nonce: u64,
    now: u64,
) -> Option<ChannelError> {
    if s.channel.expires_at <= now {
        Some(ChannelError::Expired)
    } else if nonce <= s.channel.nonce {
        Some(ChannelError::InvalidNonce)
    } else if coverage(s.treasury, balances) is Err {
        Some(coverage(s.treasury, balances)->Err_0)
    } else if !s.channel.is_party(caller) {
        Some(ChannelError::NotUser)
    } else if s.channel.confirmed_by(caller, balances, nonce) {
        if !s.channel.is_party(s.channel.pending->proposer) {
            Some(ChannelError::NotUser)
        } else if now + s.channel.challenge_period > u64::MAX {
            Some(ChannelError::ExpiresAtOverflow)
        } else {
            None
        }
    } else {
        None
    }
}

/// The record after a proposal that is not refused: committed where the
/// proposal confirms the pending one, and else waiting with the new proposal
/// in the slot.
pub open spec fn exit_outcome(
    s: ChannelState,
    caller: Seq<u8>,
    balances: Seq<u64>,
    nonce: u64,
    now: u64,
) -> ChannelState {
    if s.confirmed_by(caller, balances, nonce) {
        ChannelState {
            balances,
            nonce,
            expires_at: (now + s.challenge_period) as u64,
            pending: PendingState::Empty,
            ..s
        }
    } else {
        ChannelState { pending: PendingState::Proposed { proposer: caller, balances, nonce }, ..s }
    }
}

/// Why a withdrawal is refused, if it is. `holds` is what the caller's own
/// account holds.
pub open spec fn withdraw_refusal(s: Custody, caller: Seq<u8>, holds: u64, now: u64) -> Option<
    ChannelError,
> {
    if now < s.channel.expires_at {
        Some(ChannelError::NotExpired)
    } else if !s.channel.is_party(caller) {
        Some(ChannelError::NotUser)
    } else if withdrawn(s.channel, caller) > 0 {
        transfer_refusal(s.treasury, holds, withdrawn(s.channel, caller))
    } else {
        None
    }
}

/// What a withdrawal pays to `caller`: all that the record owes it.
pub open spec fn withdrawn(s: ChannelState, caller: Seq<u8>) -> u64 {
    s.balances[s.index_of(caller)]
}

/// The channel and its treasury after a withdrawal that is not refused.
pub open spec fn withdraw_outcome(s: Custody, caller: Seq<u8>) -> Custody {
    Custody {
        channel: ChannelState {
            balances: s.channel.balances.update(s.channel.index_of(caller), 0),
            ..s.channel
        },
        treasury: (s.treasury - withdrawn(s.channel, caller)) as u64,
    }
}

/// Why a deposit is refused, if it is. `holds` is what the payer's account
/// holds.
pub open spec fn deposit_refusal(treasury: u64, holds: u64, lamports: u64) -> Option<Failure> {
    if holds < lamports {
        Some(Failure::Program(ProgramError::InsufficientFunds))
    } else if treasury + lamports > u64::MAX {
        Some(Failure::Channel(ChannelError::BalanceOverflow))
    } else {
        None
    }
}

/// What the treasury holds beyond what both parties are owed; zero where
/// it holds no more than that, or where an amount leaves its range.
pub open spec fn excess(s: Custody) -> u64 {
    match surplus(s.treasury, s.channel.balances) {
        Ok(amount) => amount,
        Err(_) => 0,
    }
}

/// Why the authority cannot take the excess, if it cannot. `holds` is what
/// the caller's own account holds.
pub open spec fn reclaim_refusal(s: Custody, caller: Seq<u8>, holds: u64) -> Option<Failure> {
    if caller != s.channel.authority {
        Some(Failure::NotAuthority)
    } else if surplus(s.treasury, s.channel.balances) is Err {
        Some(Failure::Channel(surplus(s.treasury, s.channel.balances)->Err_0))
    } else if holds + excess(s) > u64::MAX {
        Some(Failure::Channel(ChannelError::BalanceOverflow))
    } else {
        None
    }
}

} // verus!
