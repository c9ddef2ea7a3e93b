//! Where the accounts of a ballot live.

use vstd::prelude::*;
use vstd::string::StringSliceAdditionalSpecFns;
use crate::address::Address;
use crate::ledger::{
    create_with_seed, derived_marker, derived_view, digest, program_address, seeds_view,
    try_find_program_address,
};
use crate::voting::processor::VOTER_SEED;
use crate::wire::put_bytes;

verus! {

/// The seed of every ballot's address.
pub const BALLOT_SEED: &'static str = "Ballot";

/// The address of the ballot that `base` opens with the program
/// `program_id`.
///
/// There is one unless the program's own address ends with the marker of
/// derived addresses: the digest of the base, the seed and the program's
/// address.
pub fn get_ballot_state_key(base: &Address, program_id: &Address) -> (r: Option<Address>)
    ensures
        match r {
            Some(key) => program_id@.subrange(11, 32) != derived_marker() && key@ == digest(
                seq![base@, BALLOT_SEED.spec_bytes(), program_id@],
            ),
            None => program_id@.subrange(11, 32) == derived_marker(),
        },
{
    proof {
        reveal_strlit("Ballot");
        vstd::string::is_ascii_spec_bytes(BALLOT_SEED);
        assert(BALLOT_SEED.spec_bytes().len() == 6);
    }
    create_with_seed(base, BALLOT_SEED, program_id)
}

/// The seeds of the address of a voter's state: the word "Voter", the
/// ballot and the voter.
pub open spec fn voter_seeds(ballot_state_key: Seq<u8>, voter: Seq<u8>) -> Seq<Seq<u8>> {
    seq![VOTER_SEED@, ballot_state_key, voter]
}

/// The address of the state of `voter` on the ballot at `ballot_state_key`,
/// with its bump seed; `None` where the seeds admit none.
pub fn get_voter_state_key_and_bump_seed(
    program_id: &Address,
    ballot_state_key: &Address,
    voter: &Address,
) -> (r: Option<(Address, u8)>)
    ensures
        derived_view(r) == program_address(voter_seeds(ballot_state_key@, voter@), program_id@),
{
    let mut word: Vec<u8> = Vec::new();
    put_bytes(&mut word, VOTER_SEED.as_slice());
    let mut ballot: Vec<u8> = Vec::new();
    put_bytes(&mut ballot, ballot_state_key.bytes.as_slice());
    let mut who: Vec<u8> = Vec::new();
    put_bytes(&mut who, voter.bytes.as_slice());
    let mut seeds: Vec<Vec<u8>> = Vec::new();
    seeds.push(word);
    seeds.push(ballot);
    seeds.push(who);
    proof {
        let views = seeds_view(seeds);
        assert(views[0] =~= VOTER_SEED@);
        assert(views[1] =~= ballot_state_key@);
        assert(views[2] =~= voter@);
        assert(views =~= voter_seeds(ballot_state_key@, voter@));
    }
    try_find_program_address(&seeds, program_id)
}

} // verus!
