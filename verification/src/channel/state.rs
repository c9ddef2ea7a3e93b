//! The channel record and its mathematical model.

use vstd::prelude::*;
use crate::address::Address;

verus! {

/// The errors of the channel program.
#[derive(Clone, Copy, Debug, PartialEq, Eq, Structural)]
pub enum ChannelError {
    /// The treasury cannot cover a proposed split.
    InsufficientBalance,
    /// An amount does not fit the integers that hold it.
    BalanceOverflow,
    /// The challenge period is zero, or the channel would expire at once.
    InvalidChallengePeriod,
    InvalidExpiresAt,
    /// The nonce of a proposal is not above the committed one.
    InvalidNonce,
    InvalidSignature,
    /// Both parties of the channel are the same.
    DuplicateUsers,
    /// The caller is no party of the channel.
    NotUser,
    /// The channel has expired: no proposal is taken any more.
    Expired,
    /// The channel has not expired yet: nothing can be withdrawn.
    NotExpired,
    /// The new expiry time does not fit in 64 bits.
    ExpiresAtOverflow,
}

/// The one slot for a proposal that the other party has not confirmed.
#[derive(Clone, Copy, Debug, PartialEq, Eq)]
pub enum Pending {
    /// Nothing is proposed.
    Empty,
    /// `proposer` has proposed `balances` under `nonce`.
    Proposed { proposer: Address, balances: [u64; 2], nonce: u64 },
}

/// The model of [`Pending`].
pub enum PendingState {
    Empty,
    Proposed { proposer: Seq<u8>, balances: Seq<u64>, nonce: u64 },
}

impl View for Pending {
    type V = PendingState;

    open spec fn view(&self) -> PendingState {
        match *self {
            Pending::Empty => PendingState::Empty,
            Pending::Proposed { proposer, balances, nonce } => PendingState::Proposed {
                proposer: proposer@,
                balances: balances@,
                nonce,
            },
        }
    }
}

/// The record that the ledger keeps of one channel.
#[derive(Clone, Copy, Debug, PartialEq, Eq)]
pub struct Channel {
    /// Who may take back collateral that nobody is owed.
    pub authority: Address,
    /// The two parties.
    pub users: [Address; 2],
    /// What each party is owed: `balances[i]` belongs to `users[i]`.
    pub balances: [u64; 2],
    /// By how much a commit moves the expiry time beyond the present.
    pub challenge_period: u64,
    /// From when on the committed balances can be withdrawn.
    pub expires_at: u64,
    /// The version of the committed split.
    pub nonce: u64,
    /// The proposal that waits for the other party.
    pub pending: Pending,
    /// The bump seed of the record's own address.
    pub bump_seed: u8,
    /// The bump seed of the treasury's address.
    pub treasury_bump_seed: u8,
}

/// The model of [`Channel`]: the same record over sequences.
pub struct ChannelState {
    pub authority: Seq<u8>,
    pub users: Seq<Seq<u8>>,
    pub balances: Seq<u64>,
    pub challenge_period: u64,
    pub expires_at: u64,
    pub nonce: u64,
    pub pending: PendingState,
    pub bump_seed: u8,
    pub treasury_bump_seed: u8,
}

impl View for Channel {
    type V = ChannelState;

    open spec fn view(&self) -> ChannelState {
        ChannelState {
            authority: self.authority@,
            users: self.users@.map_values(|user: Address| user@),
            balances: self.balances@,
            challenge_period: self.challenge_period,
            expires_at: self.expires_at,
            nonce: self.nonce,
            pending: self.pending@,
            bump_seed: self.bump_seed,
            treasury_bump_seed: self.treasury_bump_seed,
        }
    }
}

impl ChannelState {
    /// The record before creation: no parties, nothing owed, nothing
    /// pending.
    pub open spec fn blank() -> ChannelState {
        ChannelState {
            authority: Address::zero(),
            users: seq![Address::zero(), Address::zero()],
            balances: seq![0u64, 0u64],
            challenge_period: 0,
            expires_at: 0,
            nonce: 0,
            pending: PendingState::Empty,
            bump_seed: 0,
            treasury_bump_seed: 0,
        }
    }

    /// The record has two parties and two balances.
    pub open spec fn shaped(self) -> bool {
        &&& self.users.len() == 2
        &&& self.balances.len() == 2
        &&& self.pending matches PendingState::Proposed { balances, .. } ==> balances.len() == 2
    }

    /// What both parties are owed together.
    pub open spec fn owed(self) -> int {
        self.balances[0] + self.balances[1]
    }

    /// Whether `who` is one of the two parties.
    pub open spec fn is_party(self, who: Seq<u8>) -> bool {
        self.users[0] == who || self.users[1] == who
    }

    /// The place of `who` among the parties: the first that matches.
    pub open spec fn index_of(self, who: Seq<u8>) -> int {
        if self.users[0] == who {
            0
        } else {
            1
        }
    }

    /// What creation establishes and every operation keeps: the parties
    /// differ, the challenge period is positive, and a pending proposal comes
    /// from a party and carries a nonce above the committed one.
    pub open spec fn valid(self) -> bool {
        &&& self.shaped()
        &&& self.users[0] != self.users[1]
        &&& self.challenge_period > 0
        &&& self.pending matches PendingState::Proposed { proposer, nonce, .. } ==> {
            &&& self.is_party(proposer)
            &&& nonce > self.nonce
        }
    }

    /// The terms that are fixed when the channel is created.
    pub open spec fn same_terms(self, other: ChannelState) -> bool {
        &&& self.authority == other.authority
        &&& self.users == other.users
        &&& self.challenge_period == other.challenge_period
        &&& self.bump_seed == other.bump_seed
        &&& self.treasury_bump_seed == other.treasury_bump_seed
    }
}

impl Default for Channel {
    /// The record of a channel as it is before creation.
    fn default() -> (r: Self)
        ensures
            r@ == ChannelState::blank(),
    {
        Channel::new()
    }
}

impl Channel {
    /// The record of a channel as it is before creation: every field zero.
    pub fn new() -> (r: Self)
        ensures
            r@ == ChannelState::blank(),
    {
        let zero = Address::default();
        let r = Channel {
            authority: zero,
            users: [zero, zero],
            balances: [0, 0],
            challenge_period: 0,
            expires_at: 0,
            nonce: 0,
            pending: Pending::Empty,
            bump_seed: 0,
            treasury_bump_seed: 0,
        };
        assert(r@.users =~= ChannelState::blank().users);
        assert(r@.balances =~= ChannelState::blank().balances);
        r
    }

    /// Every record has the shape that the model asks for.
    pub proof fn lemma_shaped(self)
        ensures
            self@.shaped(),
    {
    }
}

} // verus!
