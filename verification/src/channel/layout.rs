//! The layout of the channel record in account data.
//!
//! The fields stand one after the other: the authority, the two parties,
//! the two balances, the challenge period, the expiry time, the nonce, then
//! the pending proposal as proposer, two balances and nonce, and the two bump
//! seeds. Addresses take 32 bytes, numbers 8 bytes little-endian, a bump seed
//! one byte. An empty slot is written as zeros, and a slot whose proposer is
//! the zero address is read as empty.

use vstd::prelude::*;
use vstd::bytes::spec_u64_to_le_bytes;
use crate::address::Address;
use crate::channel::state::{Channel, ChannelState, Pending, PendingState};
use crate::wire::{field, get_address, get_u64, get_u8, put_address, put_u64, u64_at};

verus! {

/// The layout of the pending slot.
pub open spec fn pending_bytes(p: PendingState) -> Seq<u8> {
    match p {
        PendingState::Empty => Address::zero() + spec_u64_to_le_bytes(0) + spec_u64_to_le_bytes(0)
            + spec_u64_to_le_bytes(0),
        PendingState::Proposed { proposer, balances, nonce } => proposer + spec_u64_to_le_bytes(
            balances[0],
        ) + spec_u64_to_le_bytes(balances[1]) + spec_u64_to_le_bytes(nonce),
    }
}

/// The layout of a record: 194 bytes.
pub open spec fn channel_bytes(c: ChannelState) -> Seq<u8> {
    c.authority + c.users[0] + c.users[1] + spec_u64_to_le_bytes(c.balances[0])
        + spec_u64_to_le_bytes(c.balances[1]) + spec_u64_to_le_bytes(c.challenge_period)
        + spec_u64_to_le_bytes(c.expires_at) + spec_u64_to_le_bytes(c.nonce) + pending_bytes(
        c.pending,
    ) + seq![c.bump_seed, c.treasury_bump_seed]
}

/// The record at the start of `s`, if 194 bytes are there. What follows
/// them is not looked at.
pub open spec fn parse_channel(s: Seq<u8>) -> Option<ChannelState> {
    if s.len() < 194 {
        None
    } else {
        Some(
            ChannelState {
                authority: field(s, 0, 32),
                users: seq![field(s, 32, 32), field(s, 64, 32)],
                balances: seq![u64_at(s, 96), u64_at(s, 104)],
                challenge_period: u64_at(s, 112),
                expires_at: u64_at(s, 120),
                nonce: u64_at(s, 128),
                pending: if field(s, 136, 32) == Address::zero() {
                    PendingState::Empty
                } else {
                    PendingState::Proposed {
                        proposer: field(s, 136, 32),
                        balances: seq![u64_at(s, 168), u64_at(s, 176)],
                        nonce: u64_at(s, 184),
                    }
                },
                bump_seed: s[192],
                treasury_bump_seed: s[193],
            },
        )
    }
}

/// Whether the layout keeps the record as it is: every address has its 32
/// bytes, and a pending proposal does not come from the zero address.
pub open spec fn storable(c: ChannelState) -> bool {
    &&& c.shaped()
    &&& c.authority.len() == 32
    &&& c.users[0].len() == 32
    &&& c.users[1].len() == 32
    &&& c.pending matches PendingState::Proposed { proposer, .. } ==> proposer.len() == 32
        && proposer != Address::zero()
}

impl Channel {
    /// The number of bytes that the ledger sets aside for a record.
    pub const LEN: usize = 200;

    /// The number of bytes that a record takes in account data.
    pub const PACKED_LEN: usize = 194;

    /// Lays the record out in bytes.
    pub fn pack(&self) -> (r: Vec<u8>)
        ensures
            r@ == channel_bytes(self@),
            r.len() == Channel::PACKED_LEN,
    {
        let mut out: Vec<u8> = Vec::new();
        put_address(&mut out, &self.authority);
        put_address(&mut out, &self.users[0]);
        put_address(&mut out, &self.users[1]);
        put_u64(&mut out, self.balances[0]);
        put_u64(&mut out, self.balances[1]);
        put_u64(&mut out, self.challenge_period);
        put_u64(&mut out, self.expires_at);
        put_u64(&mut out, self.nonce);
        let ghost head = out@;
        match self.pending {
            Pending::Empty => {
                put_address(&mut out, &Address::default());
                put_u64(&mut out, 0);
                put_u64(&mut out, 0);
                put_u64(&mut out, 0);
            },
            Pending::Proposed { proposer, balances, nonce } => {
                put_address(&mut out, &proposer);
                put_u64(&mut out, balances[0]);
                put_u64(&mut out, balances[1]);
                put_u64(&mut out, nonce);
            },
        }
        assert(out@ =~= head + pending_bytes(self@.pending));
        out.push(self.bump_seed);
        out.push(self.treasury_bump_seed);
        proof {
            vstd::bytes::lemma_auto_spec_u64_to_from_le_bytes();
            assert(out@ =~= channel_bytes(self@));
        }
        out
    }

    /// Reads a record from the start of `src`; `None` exactly when `src` is
    /// shorter than 194 bytes.
    pub fn unpack(src: &[u8]) -> (r: Option<Channel>)
        ensures
            match r {
                Some(c) => parse_channel(src@) == Some(c@),
                None => parse_channel(src@) is None,
            },
    {
        if src.len() < 194 {
            return None;
        }
        let authority = get_address(src, 0)?;
        let first = get_address(src, 32)?;
        let second = get_address(src, 64)?;
        let owed_first: u64 = get_u64(src, 96)?;
        let owed_second: u64 = get_u64(src, 104)?;
        let challenge_period: u64 = get_u64(src, 112)?;
        let expires_at: u64 = get_u64(src, 120)?;
        let nonce: u64 = get_u64(src, 128)?;
        let proposer = get_address(src, 136)?;
        let new_first: u64 = get_u64(src, 168)?;
        let new_second: u64 = get_u64(src, 176)?;
        let new_nonce: u64 = get_u64(src, 184)?;
        let bump_seed: u8 = get_u8(src, 192)?;
        let treasury_bump_seed: u8 = get_u8(src, 193)?;
        let pending = if proposer.is_default() {
            Pending::Empty
        } else {
            Pending::Proposed { proposer, balances: [new_first, new_second], nonce: new_nonce }
        };
        let users = [first, second];
        let c = Channel {
            authority,
            users,
            balances: [owed_first, owed_second],
            challenge_period,
            expires_at,
            nonce,
            pending,
            bump_seed,
            treasury_bump_seed,
        };
        proof {
            let parsed = parse_channel(src@)->0;
            assert(c@.users =~= parsed.users);
            assert(c@.balances =~= parsed.balances);
            if !(proposer@ == Address::zero()) {
                assert(c@.pending->balances =~= parsed.pending->balances);
            }
        }
        Some(c)
    }

    /// A record that has been laid out can be read again, whatever follows
    /// it in the data.
    pub proof fn lemma_unpack_pack(c: ChannelState, rest: Seq<u8>)
        requires
            storable(c),
        ensures
            channel_bytes(c).len() == 194,
            parse_channel(channel_bytes(c) + rest) == Some(c),
    {
        vstd::bytes::lemma_auto_spec_u64_to_from_le_bytes();
        let s = channel_bytes(c) + rest;
        let p = pending_bytes(c.pending);
        assert(p.len() == 56);
        assert(channel_bytes(c).len() == 194);
        assert(field(s, 0, 32) =~= c.authority);
        assert(field(s, 32, 32) =~= c.users[0]);
        assert(field(s, 64, 32) =~= c.users[1]);
        assert(field(s, 96, 8) =~= spec_u64_to_le_bytes(c.balances[0]));
        assert(field(s, 104, 8) =~= spec_u64_to_le_bytes(c.balances[1]));
        assert(field(s, 112, 8) =~= spec_u64_to_le_bytes(c.challenge_period));
        assert(field(s, 120, 8) =~= spec_u64_to_le_bytes(c.expires_at));
        assert(field(s, 128, 8) =~= spec_u64_to_le_bytes(c.nonce));
        assert(field(s, 136, 56) =~= p);
        assert(field(s, 136, 32) =~= p.subrange(0, 32));
        assert(field(s, 168, 8) =~= p.subrange(32, 40));
        assert(field(s, 176, 8) =~= p.subrange(40, 48));
        assert(field(s, 184, 8) =~= p.subrange(48, 56));
        assert(s[192] == c.bump_seed);
        assert(s[193] == c.treasury_bump_seed);
        let parsed = parse_channel(s)->0;
        assert(parsed.users =~= c.users);
        assert(parsed.balances =~= c.balances);
        match c.pending {
            PendingState::Empty => {
                assert(p.subrange(0, 32) =~= Address::zero());
            },
            PendingState::Proposed { proposer, balances, nonce } => {
                assert(p.subrange(0, 32) =~= proposer);
                assert(p.subrange(32, 40) =~= spec_u64_to_le_bytes(balances[0]));
                assert(p.subrange(40, 48) =~= spec_u64_to_le_bytes(balances[1]));
                assert(p.subrange(48, 56) =~= spec_u64_to_le_bytes(nonce));
                assert(parsed.pending->balances =~= balances);
            },
        }
    }
}

} // verus!
