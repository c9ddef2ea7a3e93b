//! The record and where it lives.

use vstd::prelude::*;
use vstd::string::StringSliceAdditionalSpecFns;
use vstd::utf8::encode_utf8;
use crate::address::Address;
use crate::ledger::{
    derived_view, digest, hashv, program_address, seeds_view, show, shown,
    try_find_program_address, ProgramError,
};
use crate::wire::{field, get_address, put_bytes};

verus! {

/// What every record starts with.
#[derive(Clone, Copy, Debug, PartialEq, Eq)]
pub struct CustomHeader {
    /// The owner of the record.
    pub owner: Address,
}

/// The header at the start of `s`, if 32 bytes are there: its owner.
pub open spec fn parse_header(s: Seq<u8>) -> Option<Seq<u8>> {
    if s.len() >= 32 {
        Some(field(s, 0, 32))
    } else {
        None
    }
}

impl CustomHeader {
    /// The number of bytes that a header takes in account data.
    pub const LEN: usize = 32;

    /// Writes the header over the first 32 bytes of `dst`.
    pub fn pack_into_slice(&self, dst: &mut Vec<u8>)
        requires
            old(dst).len() >= CustomHeader::LEN,
        ensures
            final(dst)@ == self.owner@ + old(dst)@.subrange(32, old(dst)@.len() as int),
    {
        let mut i: usize = 0;
        while i < 32
            invariant
                i <= 32,
                dst@.len() == old(dst)@.len(),
                dst@.len() >= 32,
                forall|j: int| 0 <= j < i ==> dst@[j] == self.owner.bytes@[j],
                forall|j: int| i <= j < dst@.len() ==> dst@[j] == old(dst)@[j],
            decreases 32 - i,
        {
            dst.set(i, self.owner.bytes[i]);
            i += 1;
        }
        assert(dst@ =~= self.owner@ + old(dst)@.subrange(32, old(dst)@.len() as int));
    }

    /// Reads a header from the start of `src`.
    ///
    /// Fails with `InvalidAccountData` exactly when `src` is shorter than 32
    /// bytes.
    pub fn unpack_from_slice(src: &[u8]) -> (r: Result<CustomHeader, ProgramError>)
        ensures
            match r {
                Ok(header) => parse_header(src@) == Some(header.owner@),
                Err(e) => e == ProgramError::InvalidAccountData && parse_header(src@) is None,
            },
    {
        match get_address(src, 0) {
            Some(owner) => Ok(CustomHeader { owner }),
            None => Err(ProgramError::InvalidAccountData),
        }
    }

    /// Whether the header names nobody as its owner.
    pub fn is_initialized(&self) -> (r: bool)
        ensures
            r == (self.owner@ == Address::zero()),
    {
        self.owner.is_default()
    }
}

/// What goes before an owner's address in the text that is hashed.
pub const HASH_PREFIX: &'static str = "Custom Service";

/// The seed of the record of `owner`: the digest of the prefix followed by
/// the owner's address as text.
pub open spec fn record_seed(owner: Seq<u8>) -> Seq<u8> {
    digest(seq![HASH_PREFIX.spec_bytes() + encode_utf8(shown(owner))])
}

/// The address of a record and the seeds that sign for it, given its seed
/// and the program address derived from it: the seed with the bump seed
/// behind it.
pub fn seeds_and_key(seed: [u8; 32], derived: Option<(Address, u8)>) -> (r: Option<
    (Address, Vec<u8>),
>)
    ensures
        match derived {
            Some((key, bump)) => r matches Some((k, seeds)) && k == key && seeds@ == seed@.push(
                bump,
            ),
            None => r is None,
        },
{
    match derived {
        Some((key, bump)) => {
            let mut seeds_vec: Vec<u8> = Vec::new();
            put_bytes(&mut seeds_vec, seed.as_slice());
            seeds_vec.push(bump);
            Some((key, seeds_vec))
        },
        None => None,
    }
}

/// Computes the seed of the record of `owner`.
pub fn record_seed_of(owner: &Address) -> (r: [u8; 32])
    ensures
        r@ == record_seed(owner@),
{
    let mut text: Vec<u8> = Vec::new();
    put_bytes(&mut text, HASH_PREFIX.as_bytes());
    let name = show(owner);
    put_bytes(&mut text, name.as_str().as_bytes());
    let mut parts: Vec<Vec<u8>> = Vec::new();
    parts.push(text);
    proof {
        assert(seeds_view(parts)[0] == HASH_PREFIX.spec_bytes() + encode_utf8(shown(owner@)));
        assert(seeds_view(parts) =~= seq![HASH_PREFIX.spec_bytes() + encode_utf8(shown(owner@))]);
    }
    hashv(&parts)
}

/// The program address that belongs to the record seed `seed`, with its bump
/// seed.
pub fn record_address(program_id: &Address, seed: &[u8; 32]) -> (r: Option<(Address, u8)>)
    ensures
        derived_view(r) == program_address(seq![seed@], program_id@),
{
    let mut chunk: Vec<u8> = Vec::new();
    put_bytes(&mut chunk, seed.as_slice());
    let mut seeds: Vec<Vec<u8>> = Vec::new();
    seeds.push(chunk);
    proof {
        assert(seeds_view(seeds)[0] == seed@);
        assert(seeds_view(seeds) =~= seq![seed@]);
    }
    try_find_program_address(&seeds, program_id)
}

/// The address of the record of `owner` with the program `program_id`, and
/// the seeds that sign for it: the record's seed with the bump seed behind
/// it. `None` where the seed admits no address.
pub fn get_seeds_and_key(program_id: &Address, owner: &Address) -> (r: Option<(Address, Vec<u8>)>)
    ensures
        match program_address(seq![record_seed(owner@)], program_id@) {
            Some((key, bump)) => r matches Some((k, seeds)) && k@ == key && seeds@ == record_seed(
                owner@,
            ).push(bump),
            None => r is None,
        },
{
    let seed = record_seed_of(owner);
    let derived = record_address(program_id, &seed);
    seeds_and_key(seed, derived)
}

} // verus!
