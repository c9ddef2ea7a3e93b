//! The accounts of the ballot program and their layout in account data.

use vstd::prelude::*;
use vstd::bytes::spec_u64_to_le_bytes;
use crate::address::Address;
use crate::ledger::ProgramError;
use crate::wire::{field, get_address, get_u64, get_u8, put_address, put_u64, u64_at};

verus! {

/// One person with the right to vote.
///
/// A voter has voted (`voted` and no delegate), has delegated (`voted` and a
/// delegate), or has done neither yet.
#[derive(Clone, Copy, Debug, PartialEq, Eq)]
pub struct Voter {
    /// Whether the person has voted or delegated.
    pub voted: bool,
    /// The index of the proposal voted for.
    pub vote: u8,
    /// The weight of the vote, which grows with each delegation to this
    /// voter. Positive once the voter exists.
    pub weight: u64,
    /// To whom the vote is delegated; the zero address where to nobody.
    pub delegate: Address,
}

/// The model of [`Voter`].
pub struct VoterState {
    pub voted: bool,
    pub vote: u8,
    pub weight: u64,
    pub delegate: Seq<u8>,
}

impl View for Voter {
    type V = VoterState;

    open spec fn view(&self) -> VoterState {
        VoterState {
            voted: self.voted,
            vote: self.vote,
            weight: self.weight,
            delegate: self.delegate@,
        }
    }
}

/// A truth value as one byte.
pub open spec fn flag(b: bool) -> u8 {
    if b {
        1
    } else {
        0
    }
}

/// The layout of a voter: the flag, the vote, the weight and the delegate,
/// 42 bytes in all.
pub open spec fn voter_bytes(v: VoterState) -> Seq<u8> {
    seq![flag(v.voted), v.vote] + spec_u64_to_le_bytes(v.weight) + v.delegate
}

/// The voter at the start of `s`, if there is one: 42 bytes, the first of
/// them zero or one. What follows them is not looked at.
pub open spec fn parse_voter(s: Seq<u8>) -> Option<VoterState> {
    if s.len() >= 42 && s[0] <= 1 {
        Some(
            VoterState {
                voted: s[0] == 1,
                vote: s[1],
                weight: u64_at(s, 2),
                delegate: field(s, 10, 32),
            },
        )
    } else {
        None
    }
}

impl Voter {
    /// The number of bytes that a voter takes in account data.
    pub const LEN: usize = 42;

    /// Writes the voter over the first 42 bytes of `dst`.
    pub fn pack_into_slice(&self, dst: &mut Vec<u8>)
        requires
            old(dst).len() >= Voter::LEN,
        ensures
            final(dst)@ == voter_bytes(self@) + old(dst)@.subrange(42, old(dst)@.len() as int),
            final(dst).len() == old(dst).len(),
    {
        let mut bytes: Vec<u8> = Vec::new();
        bytes.push(if self.voted {
            1
        } else {
            0
        });
        bytes.push(self.vote);
        put_u64(&mut bytes, self.weight);
        put_address(&mut bytes, &self.delegate);
        proof {
            vstd::bytes::lemma_auto_spec_u64_to_from_le_bytes();
            assert(bytes@ =~= voter_bytes(self@));
            assert(bytes@.len() == 42);
        }
        let mut i: usize = 0;
        while i < 42
            invariant
                i <= 42,
                bytes@.len() == 42,
                dst@.len() == old(dst)@.len(),
                dst@.len() >= 42,
                forall|j: int| 0 <= j < i ==> dst@[j] == bytes@[j],
                forall|j: int| i <= j < dst@.len() ==> dst@[j] == old(dst)@[j],
            decreases 42 - i,
        {
            dst.set(i, bytes[i]);
            i += 1;
        }
        assert(dst@ =~= bytes@ + old(dst)@.subrange(42, old(dst)@.len() as int));
    }

    /// Reads a voter from the start of `src`.
    ///
    /// Fails with `InvalidAccountData` exactly when `src` is shorter than 42
    /// bytes or its first byte is neither zero nor one.
    pub fn unpack_from_slice(src: &[u8]) -> (r: Result<Voter, ProgramError>)
        ensures
            match r {
                Ok(v) => parse_voter(src@) == Some(v@),
                Err(e) => e == ProgramError::InvalidAccountData && parse_voter(src@) is None,
            },
    {
        let voted: bool = match get_u8(src, 0) {
            Some(0) => false,
            Some(1) => true,
            _ => {
                return Err(ProgramError::InvalidAccountData);
            },
        };
        let vote: u8 = match get_u8(src, 1) {
            Some(b) => b,
            None => {
                return Err(ProgramError::InvalidAccountData);
            },
        };
        let weight: u64 = match get_u64(src, 2) {
            Some(w) => w,
            None => {
                return Err(ProgramError::InvalidAccountData);
            },
        };
        let delegate: Address = match get_address(src, 10) {
            Some(a) => a,
            None => {
                return Err(ProgramError::InvalidAccountData);
            },
        };
        Ok(Voter { voted, vote, weight, delegate })
    }

    /// Whether the voter exists: its weight is positive.
    pub fn is_initialized(&self) -> (r: bool)
        ensures
            r == (self.weight > 0),
    {
        self.weight > 0
    }

    /// A voter that has been written can be read again, whatever follows it
    /// in the data.
    pub proof fn lemma_unpack_pack(v: VoterState, rest: Seq<u8>)
        requires
            v.delegate.len() == 32,
        ensures
            voter_bytes(v).len() == 42,
            parse_voter(voter_bytes(v) + rest) == Some(v),
    {
        vstd::bytes::lemma_auto_spec_u64_to_from_le_bytes();
        let s = voter_bytes(v) + rest;
        assert(field(s, 2, 8) =~= spec_u64_to_le_bytes(v.weight));
        assert(field(s, 10, 32) =~= v.delegate);
    }
}

} // verus!
