//! The instructions of the ballot program.
//!
//! Every instruction takes the accounts that the ledger passes, in the order
//! in which the instruction names them, and rewrites the data of those that
//! it changes. An instruction that is refused changes nothing.

use vstd::prelude::*;
use crate::address::Address;
use crate::ledger::{Account, ProgramError};
use crate::voting::ballot::{
    ballot_bytes, encodable, lemma_ballot_bytes_parse, lemma_proposals_bytes_len, parse_ballot,
    Ballot, BallotState, Proposal, ProposalState,
};
use crate::voting::error::VotingError;
use crate::voting::instruction::{parse_instruction, InstructionState, VotingInstruction};
use crate::voting::state::{parse_voter, voter_bytes, Voter, VoterState};
use crate::wire::put_bytes;

verus! {

/// The most proposals that a ballot can have.
pub const MAX_PROPOSALS: u8 = 32;

/// The longest chain of delegations that is followed.
pub const MAX_DELEGATE_CHAIN: usize = 5;

/// Whether `after` is the account `before` with `bytes` written over the
/// start of its data: nothing else of it differs.
pub open spec fn rewritten(before: Account, after: Account, bytes: Seq<u8>) -> bool {
    &&& after.key == before.key
    &&& after.owner == before.owner
    &&& after.is_signer == before.is_signer
    &&& after.lamports == before.lamports
    &&& bytes.len() <= before.data@.len()
    &&& after.data@ == bytes + before.data@.subrange(bytes.len() as int, before.data@.len() as int)
}

/// Whether `after` holds the accounts of `before` with those at `first` and
/// `second` rewritten, and every other one as it was.
pub open spec fn rewritten_at(
    before: Seq<Account>,
    after: Seq<Account>,
    first: int,
    first_bytes: Seq<u8>,
    second: int,
    second_bytes: Seq<u8>,
) -> bool {
    &&& after.len() == before.len()
    &&& 0 <= first < before.len()
    &&& 0 <= second < before.len()
    &&& first != second
    &&& rewritten(before[first], after[first], first_bytes)
    &&& rewritten(before[second], after[second], second_bytes)
    &&& forall|i: int|
        0 <= i < before.len() && i != first && i != second ==> after[i] == before[i]
}

/// The opened ballot that `account` holds for the program, or why it holds
/// none.
pub open spec fn ballot_in(program_id: Seq<u8>, account: Account) -> Result<
    BallotState,
    ProgramError,
> {
    if account.owner@ != program_id {
        Err(ProgramError::IllegalOwner)
    } else {
        match parse_ballot(account.data@) {
            None => Err(ProgramError::BorshIoError),
            Some(ballot) => if ballot.is_initialized {
                Ok(ballot)
            } else {
                Err(ProgramError::UninitializedAccount)
            },
        }
    }
}

/// The voter that `account` holds for the program, or why it holds none.
pub open spec fn voter_in(program_id: Seq<u8>, account: Account) -> Result<
    VoterState,
    ProgramError,
> {
    if account.key@ == Address::zero() {
        Err(ProgramError::NotEnoughAccountKeys)
    } else if account.owner@ != program_id {
        Err(ProgramError::IllegalOwner)
    } else if account.data@.len() == 0 {
        Err(ProgramError::UninitializedAccount)
    } else {
        match parse_voter(account.data@) {
            None => Err(ProgramError::InvalidAccountData),
            Some(voter) => if voter.weight > 0 {
                Ok(voter)
            } else {
                Err(ProgramError::UninitializedAccount)
            },
        }
    }
}

/// Why `account` cannot become a ballot, if it cannot.
pub open spec fn ballot_taken(program_id: Seq<u8>, account: Account) -> Option<ProgramError> {
    if account.owner@ != program_id {
        Some(ProgramError::IllegalOwner)
    } else if parse_ballot(account.data@) matches Some(ballot) && ballot.is_initialized {
        Some(ProgramError::AccountAlreadyInitialized)
    } else {
        None
    }
}

/// Why `account` cannot become a voter, if it cannot.
pub open spec fn voter_taken(program_id: Seq<u8>, account: Account) -> Option<ProgramError> {
    if account.data@.len() == 0 {
        None
    } else if account.owner@ != program_id {
        Some(ProgramError::IllegalOwner)
    } else {
        match parse_voter(account.data@) {
            None => Some(ProgramError::InvalidAccountData),
            Some(voter) => if voter.weight > 0 {
                Some(ProgramError::AccountAlreadyInitialized)
            } else {
                None
            },
        }
    }
}

/// The ballot with `weight` more votes for the proposal at `index`.
pub open spec fn counted(ballot: BallotState, index: int, weight: u64) -> BallotState {
    BallotState {
        proposals: ballot.proposals.update(
            index,
            ProposalState {
                vote_count: (ballot.proposals[index].vote_count + weight) as u64,
                ..ballot.proposals[index]
            },
        ),
        ..ballot
    }
}

/// Counting votes changes no name: a ballot that was read from `data` takes
/// the very same number of bytes with the votes counted.
pub proof fn lemma_counted_fits(data: Seq<u8>, index: int, weight: u64)
    requires
        parse_ballot(data) is Some,
        0 <= index < (parse_ballot(data)->0).proposals.len(),
    ensures
        encodable(counted(parse_ballot(data)->0, index, weight)),
        ballot_bytes(counted(parse_ballot(data)->0, index, weight)).len() == data.len(),
{
    let ballot = parse_ballot(data)->0;
    lemma_ballot_bytes_parse(data);
    lemma_proposals_bytes_len(ballot.proposals, counted(ballot, index, weight).proposals);
}

/// A fresh ballot for the proposals named `names`.
pub open spec fn fresh_ballot(chairperson: Seq<u8>, names: Seq<Seq<char>>) -> BallotState {
    BallotState {
        is_initialized: true,
        chairperson,
        proposals: names.map_values(|name: Seq<char>| ProposalState { name, vote_count: 0 }),
    }
}

/// The names of a list of strings.
pub open spec fn names_of(proposals: Seq<String>) -> Seq<Seq<char>> {
    proposals.map_values(|name: String| name@)
}

/// What opening a ballot writes, or why it is refused.
pub open spec fn init_ballot_result(
    program_id: Seq<u8>,
    accounts: Seq<Account>,
    chairperson: Seq<u8>,
    names: Seq<Seq<char>>,
) -> Result<BallotState, ProgramError> {
    let ballot = fresh_ballot(chairperson, names);
    if names.len() == 0 {
        Err(ProgramError::Custom(VotingError::NoProposals.number()))
    } else if names.len() > MAX_PROPOSALS {
        Err(ProgramError::Custom(VotingError::TooManyProposals.number()))
    } else if accounts.len() < 1 {
        Err(ProgramError::NotEnoughAccountKeys)
    } else if !accounts[0].is_signer {
        Err(ProgramError::MissingRequiredSignature)
    } else if accounts.len() < 2 {
        Err(ProgramError::NotEnoughAccountKeys)
    } else if ballot_taken(program_id, accounts[1]) is Some {
        Err(ballot_taken(program_id, accounts[1])->0)
    } else if !encodable(ballot) || ballot_bytes(ballot).len() > accounts[1].data@.len() {
        Err(ProgramError::BorshIoError)
    } else {
        Ok(ballot)
    }
}

/// What a vote writes, or why it is refused.
pub open spec fn vote_result(program_id: Seq<u8>, accounts: Seq<Account>, vote: u8) -> Result<
    (BallotState, VoterState),
    ProgramError,
> {
    if accounts.len() < 1 {
        Err(ProgramError::NotEnoughAccountKeys)
    } else if !accounts[0].is_signer {
        Err(ProgramError::MissingRequiredSignature)
    } else if accounts.len() < 2 {
        Err(ProgramError::NotEnoughAccountKeys)
    } else {
        match ballot_in(program_id, accounts[1]) {
            Err(e) => Err(e),
            Ok(ballot) => if vote >= ballot.proposals.len() {
                Err(ProgramError::Custom(VotingError::InvalidVote.number()))
            } else if accounts.len() < 3 {
                Err(ProgramError::NotEnoughAccountKeys)
            } else {
                match voter_in(program_id, accounts[2]) {
                    Err(e) => Err(e),
                    Ok(voter) => if voter.voted {
                        Err(ProgramError::Custom(VotingError::AlreadyVoted.number()))
                    } else if ballot.proposals[vote as int].vote_count + voter.weight > u64::MAX {
                        Err(ProgramError::ArithmeticOverflow)
                    } else {
                        Ok(
                            (
                                counted(ballot, vote as int, voter.weight),
                                VoterState { voted: true, vote, ..voter },
                            ),
                        )
                    },
                }
            },
        }
    }
}

/// The seed of every voter's address: the word "Voter".
pub const VOTER_SEED: [u8; 5] = [86, 111, 116, 101, 114];

/// The account that the system program is asked to create for a voter.
#[derive(Clone, Debug, PartialEq, Eq)]
pub struct CreateAccount {
    /// Who pays.
    pub from: Address,
    /// The account to create.
    pub to: Address,
    /// What the new account is to hold.
    pub lamports: u64,
    /// The number of bytes of its data.
    pub space: u64,
    /// The program that is to own it.
    pub owner: Address,
    /// The seeds with which the program signs for the new account.
    pub signer_seeds: Vec<Vec<u8>>,
}

/// The seeds with which the program signs for the state of `voter` on the
/// ballot at `ballot`.
pub open spec fn voter_signer_seeds(ballot: Seq<u8>, voter: Seq<u8>, bump: u8) -> Seq<Seq<u8>> {
    seq![VOTER_SEED@, ballot, voter, seq![bump]]
}

/// Whether `action` asks for the state of `voter`, paid by the first
/// account, at the third.
pub open spec fn creates_voter(
    action: CreateAccount,
    program_id: Address,
    accounts: Seq<Account>,
    voter: Address,
    bump: u8,
    rent: u64,
) -> bool {
    &&& action.from == accounts[0].key
    &&& action.to == accounts[2].key
    &&& action.lamports == rent
    &&& action.space == Voter::LEN
    &&& action.owner == program_id
    &&& action.signer_seeds@.map_values(|seed: Vec<u8>| seed@) == voter_signer_seeds(
        accounts[1].key@,
        voter@,
        bump,
    )
}

/// A voter that has just been given the right to vote.
pub open spec fn new_voter() -> VoterState {
    VoterState { voted: false, vote: 0, weight: 1, delegate: Address::zero() }
}

/// Whether adding a voter has to create the voter's account, or why the
/// voter cannot be added. `rent` is what the new account must hold.
pub open spec fn add_voter_result(program_id: Seq<u8>, accounts: Seq<Account>, rent: u64) -> Result<
    bool,
    ProgramError,
> {
    if accounts.len() < 1 {
        Err(ProgramError::NotEnoughAccountKeys)
    } else if !accounts[0].is_signer {
        Err(ProgramError::MissingRequiredSignature)
    } else if accounts.len() < 2 {
        Err(ProgramError::NotEnoughAccountKeys)
    } else if ballot_in(program_id, accounts[1]) is Err {
        Err(ballot_in(program_id, accounts[1])->Err_0)
    } else if accounts.len() < 3 {
        Err(ProgramError::NotEnoughAccountKeys)
    } else if voter_taken(program_id, accounts[2]) is Some {
        Err(voter_taken(program_id, accounts[2])->0)
    } else if accounts[2].data@.len() > 0 {
        Ok(false)
    } else if accounts[0].lamports < rent {
        Err(ProgramError::InsufficientFunds)
    } else if accounts[2].lamports + rent > u64::MAX {
        Err(ProgramError::ArithmeticOverflow)
    } else {
        Ok(true)
    }
}

/// Whether `after` is the account `before` but for what it holds.
pub open spec fn same_but_lamports(before: Account, after: Account, lamports: int) -> bool {
    &&& after.key == before.key
    &&& after.owner == before.owner
    &&& after.is_signer == before.is_signer
    &&& after.lamports == lamports
    &&& after.data@ == before.data@
}

/// What adding a voter leaves.
pub open spec fn add_voter_post(
    program_id: Address,
    before: Seq<Account>,
    after: Seq<Account>,
    r: Result<Option<CreateAccount>, ProgramError>,
    voter: Address,
    bump: u8,
    rent: u64,
) -> bool {
    match add_voter_result(program_id@, before, rent) {
        Err(e) => r == Err::<Option<CreateAccount>, ProgramError>(e) && after == before,
        Ok(false) => {
            &&& r == Ok::<Option<CreateAccount>, ProgramError>(None)
            &&& after.len() == before.len()
            &&& rewritten(before[2], after[2], voter_bytes(new_voter()))
            &&& forall|i: int| 0 <= i < before.len() && i != 2 ==> after[i] == before[i]
        },
        Ok(true) => {
            &&& r matches Ok(Some(action)) && creates_voter(
                action,
                program_id,
                before,
                voter,
                bump,
                rent,
            )
            &&& after.len() == before.len()
            &&& same_but_lamports(before[0], after[0], before[0].lamports - rent)
            &&& after[2].key == before[2].key
            &&& after[2].is_signer == before[2].is_signer
            &&& after[2].owner == program_id
            &&& after[2].lamports == before[2].lamports + rent
            &&& after[2].data@ == voter_bytes(new_voter())
            &&& forall|i: int|
                0 <= i < before.len() && i != 0 && i != 2 ==> after[i] == before[i]
        },
    }
}

/// What opening a ballot leaves.
pub open spec fn init_ballot_post(
    program_id: Address,
    before: Seq<Account>,
    after: Seq<Account>,
    r: Result<(), ProgramError>,
    chairperson: Seq<u8>,
    names: Seq<Seq<char>>,
) -> bool {
    match init_ballot_result(program_id@, before, chairperson, names) {
        Err(e) => r == Err::<(), ProgramError>(e) && after == before,
        Ok(ballot) => {
            &&& r is Ok
            &&& after.len() == before.len()
            &&& rewritten(before[1], after[1], ballot_bytes(ballot))
            &&& forall|i: int| 0 <= i < before.len() && i != 1 ==> after[i] == before[i]
        },
    }
}

/// What a vote leaves.
pub open spec fn vote_post(
    program_id: Address,
    before: Seq<Account>,
    after: Seq<Account>,
    r: Result<(), ProgramError>,
    vote: u8,
) -> bool {
    match vote_result(program_id@, before, vote) {
        Err(e) => r == Err::<(), ProgramError>(e) && after == before,
        Ok((ballot, voter)) => r is Ok && rewritten_at(
            before,
            after,
            1,
            ballot_bytes(ballot),
            2,
            voter_bytes(voter),
        ),
    }
}

/// Where the chain of delegations that starts with the fourth account ends,
/// for the voter at `voter_key`; see [`chain_end`].
pub open spec fn chain_result(program_id: Seq<u8>, accounts: Seq<Account>, voter_key: Seq<u8>)
    -> Result<int, ProgramError> {
    if accounts.len() < 4 {
        Err(ProgramError::NotEnoughAccountKeys)
    } else {
        chain_end(program_id, accounts, voter_key, 3, MAX_DELEGATE_CHAIN as nat)
    }
}

/// Where a chain of delegations ends: the place of the first account from
/// `at` on whose voter has not delegated, or why there is none. At most
/// `steps` accounts are looked at, and the account at `at` is there.
pub open spec fn chain_end(
    program_id: Seq<u8>,
    accounts: Seq<Account>,
    voter_key: Seq<u8>,
    at: int,
    steps: nat,
) -> Result<int, ProgramError>
    decreases steps,
{
    if steps == 0 {
        Err(ProgramError::Custom(VotingError::MaxDelegateChainLimitExceeded.number()))
    } else if accounts[at].key@ == voter_key {
        Err(ProgramError::Custom(VotingError::DelegateChainCycle.number()))
    } else {
        match voter_in(program_id, accounts[at]) {
            Err(e) => Err(e),
            Ok(to) => if to.delegate == Address::zero() {
                Ok(at)
            } else if at + 1 >= accounts.len() {
                Err(ProgramError::NotEnoughAccountKeys)
            } else {
                chain_end(program_id, accounts, voter_key, at + 1, (steps - 1) as nat)
            },
        }
    }
}

/// What a delegation does with the weight that is handed over.
pub enum Delegation {
    /// The one delegated to has voted: the weight goes to that proposal.
    Counted { ballot: BallotState, voter: VoterState },
    /// The one delegated to, at place `to`, has not voted: the weight goes
    /// to that voter.
    Handed { to: int, to_voter: VoterState, voter: VoterState },
}

/// What a delegation writes, or why it is refused.
pub open spec fn delegate_result(program_id: Seq<u8>, accounts: Seq<Account>) -> Result<
    Delegation,
    ProgramError,
> {
    if accounts.len() < 1 {
        Err(ProgramError::NotEnoughAccountKeys)
    } else if !accounts[0].is_signer {
        Err(ProgramError::MissingRequiredSignature)
    } else if accounts.len() < 2 {
        Err(ProgramError::NotEnoughAccountKeys)
    } else if ballot_in(program_id, accounts[1]) is Err {
        Err(ballot_in(program_id, accounts[1])->Err_0)
    } else if accounts.len() < 3 {
        Err(ProgramError::NotEnoughAccountKeys)
    } else if voter_in(program_id, accounts[2]) is Err {
        Err(voter_in(program_id, accounts[2])->Err_0)
    } else if (voter_in(program_id, accounts[2])->Ok_0).voted {
        Err(ProgramError::Custom(VotingError::AlreadyVoted.number()))
    } else {
        let ballot = ballot_in(program_id, accounts[1])->Ok_0;
        let voter = voter_in(program_id, accounts[2])->Ok_0;
        match chain_result(program_id, accounts, accounts[2].key@) {
            Err(e) => Err(e),
            Ok(to) => {
                let to_voter = voter_in(program_id, accounts[to])->Ok_0;
                let delegated = VoterState { voted: true, delegate: accounts[to].key@, ..voter };
                if to_voter.voted {
                    if to_voter.vote >= ballot.proposals.len() {
                        Err(ProgramError::Custom(VotingError::InvalidVote.number()))
                    } else if ballot.proposals[to_voter.vote as int].vote_count + voter.weight
                        > u64::MAX {
                        Err(ProgramError::ArithmeticOverflow)
                    } else {
                        Ok(
                            Delegation::Counted {
                                ballot: counted(ballot, to_voter.vote as int, voter.weight),
                                voter: delegated,
                            },
                        )
                    }
                } else if to_voter.weight + voter.weight > u64::MAX {
                    Err(ProgramError::ArithmeticOverflow)
                } else {
                    Ok(
                        Delegation::Handed {
                            to,
                            to_voter: VoterState {
                                weight: (to_voter.weight + voter.weight) as u64,
                                ..to_voter
                            },
                            voter: delegated,
                        },
                    )
                }
            },
        }
    }
}

/// What a delegation leaves.
pub open spec fn delegate_post(
    program_id: Address,
    before: Seq<Account>,
    after: Seq<Account>,
    r: Result<(), ProgramError>,
) -> bool {
    match delegate_result(program_id@, before) {
        Err(e) => r == Err::<(), ProgramError>(e) && after == before,
        Ok(Delegation::Counted { ballot, voter }) => r is Ok && rewritten_at(
            before,
            after,
            1,
            ballot_bytes(ballot),
            2,
            voter_bytes(voter),
        ),
        Ok(Delegation::Handed { to, to_voter, voter }) => r is Ok && rewritten_at(
            before,
            after,
            2,
            voter_bytes(voter),
            to,
            voter_bytes(to_voter),
        ),
    }
}

/// A copy of `data` with `bytes` written over its start.
pub(crate) fn overwrite(data: &Vec<u8>, bytes: &Vec<u8>) -> (r: Vec<u8>)
    requires
        bytes.len() <= data.len(),
    ensures
        r@ == bytes@ + data@.subrange(bytes@.len() as int, data@.len() as int),
{
    let mut out: Vec<u8> = Vec::new();
    put_bytes(&mut out, bytes.as_slice());
    put_bytes(&mut out, vstd::slice::slice_subrange(data.as_slice(), bytes.len(), data.len()));
    out
}

/// Replaces the data of the account at `index`.
pub(crate) fn store(accounts: &mut Vec<Account>, index: usize, data: Vec<u8>)
    requires
        index < old(accounts).len(),
    ensures
        final(accounts).len() == old(accounts).len(),
        final(accounts)[index as int].key == old(accounts)[index as int].key,
        final(accounts)[index as int].owner == old(accounts)[index as int].owner,
        final(accounts)[index as int].is_signer == old(accounts)[index as int].is_signer,
        final(accounts)[index as int].lamports == old(accounts)[index as int].lamports,
        final(accounts)[index as int].data == data,
        forall|i: int|
            0 <= i < old(accounts).len() && i != index ==> final(accounts)[i] == old(accounts)[i],
{
    let account = &accounts[index];
    let replaced = Account {
        key: account.key,
        owner: account.owner,
        is_signer: account.is_signer,
        lamports: account.lamports,
        data,
    };
    accounts.set(index, replaced);
}

/// The instructions of the ballot program.
pub struct Processor {}

impl Processor {
    /// Checks that `ballot_state_account` belongs to the program and holds
    /// no opened ballot yet.
    pub fn ensure_uninitialized_ballot_state_account(
        program_id: &Address,
        ballot_state_account: &Account,
    ) -> (r: Result<(), ProgramError>)
        ensures
            match ballot_taken(program_id@, *ballot_state_account) {
                Some(e) => r == Err::<(), ProgramError>(e),
                None => r is Ok,
            },
    {
        if ballot_state_account.owner != *program_id {
            return Err(ProgramError::IllegalOwner);
        }
        if let Some(ballot_state) = Ballot::try_from_slice(ballot_state_account.data.as_slice()) {
            if ballot_state.is_initialized {
                return Err(ProgramError::AccountAlreadyInitialized);
            }
        }
        Ok(())
    }

    /// Reads the opened ballot of the program from `ballot_state_account`.
    pub fn get_initialized_ballot_state(program_id: &Address, ballot_state_account: &Account) -> (r:
        Result<Ballot, ProgramError>)
        ensures
            match r {
                Ok(ballot) => ballot_in(program_id@, *ballot_state_account) == Ok::<
                    BallotState,
                    ProgramError,
                >(ballot@),
                Err(e) => ballot_in(program_id@, *ballot_state_account) == Err::<
                    BallotState,
                    ProgramError,
                >(e),
            },
    {
        if ballot_state_account.owner != *program_id {
            return Err(ProgramError::IllegalOwner);
        }
        let ballot_state = match Ballot::try_from_slice(ballot_state_account.data.as_slice()) {
            Some(ballot) => ballot,
            None => {
                return Err(ProgramError::BorshIoError);
            },
        };
        if !ballot_state.is_initialized {
            return Err(ProgramError::UninitializedAccount);
        }
        Ok(ballot_state)
    }

    /// Checks that `voter_state_account` holds no voter yet: it is empty,
    /// or it belongs to the program and holds a voter of weight zero.
    pub fn ensure_uninitialized_voter_state_account(
        program_id: &Address,
        voter_state_account: &Account,
    ) -> (r: Result<(), ProgramError>)
        ensures
            match voter_taken(program_id@, *voter_state_account) {
                Some(e) => r == Err::<(), ProgramError>(e),
                None => r is Ok,
            },
    {
        if voter_state_account.data.len() > 0 {
            if voter_state_account.owner != *program_id {
                return Err(ProgramError::IllegalOwner);
            }
            let voter_state = match Voter::unpack_from_slice(voter_state_account.data.as_slice()) {
                Ok(voter) => voter,
                Err(e) => {
                    return Err(e);
                },
            };
            if voter_state.is_initialized() {
                return Err(ProgramError::AccountAlreadyInitialized);
            }
        }
        Ok(())
    }

    /// Reads the voter of the program from `voter_state_account`.
    pub fn get_initialized_voter_state(program_id: &Address, voter_state_account: &Account) -> (r:
        Result<Voter, ProgramError>)
        ensures
            match r {
                Ok(voter) => voter_in(program_id@, *voter_state_account) == Ok::<
                    VoterState,
                    ProgramError,
                >(voter@),
                Err(e) => voter_in(program_id@, *voter_state_account) == Err::<
                    VoterState,
                    ProgramError,
                >(e),
            },
    {
        if voter_state_account.key.is_default() {
            return Err(ProgramError::NotEnoughAccountKeys);
        }
        if voter_state_account.owner != *program_id {
            return Err(ProgramError::IllegalOwner);
        }
        if voter_state_account.data.len() == 0 {
            return Err(ProgramError::UninitializedAccount);
        }
        let voter_state = match Voter::unpack_from_slice(voter_state_account.data.as_slice()) {
            Ok(voter) => voter,
            Err(e) => {
                return Err(e);
            },
        };
        if !voter_state.is_initialized() {
            return Err(ProgramError::UninitializedAccount);
        }
        Ok(voter_state)
    }

    /// Opens a ballot for `proposals`, chaired by `chairperson`.
    ///
    /// Accounts: the payer, who signs; the ballot.
    ///
    /// The refusals, in the order in which they are tested: `NoProposals`
    /// and `TooManyProposals` (more than 32); `NotEnoughAccountKeys` and
    /// `MissingRequiredSignature` for the payer; `NotEnoughAccountKeys`,
    /// `IllegalOwner` and `AccountAlreadyInitialized` for the ballot;
    /// `BorshIoError` where the ballot's data cannot hold the ballot.
    ///
    /// Otherwise the ballot is written over the start of the ballot's data,
    /// with every count at zero.
    pub fn process_init_ballot(
        program_id: &Address,
        accounts: &mut Vec<Account>,
        chairperson: Address,
        proposals: Vec<String>,
    ) -> (r: Result<(), ProgramError>)
        ensures
            init_ballot_post(
                *program_id,
                old(accounts)@,
                final(accounts)@,
                r,
                chairperson@,
                names_of(proposals@),
            ),
    {
        if proposals.len() == 0 {
            return Err(ProgramError::from(VotingError::NoProposals));
        } else if proposals.len() > MAX_PROPOSALS as usize {
            return Err(ProgramError::from(VotingError::TooManyProposals));
        }
        if accounts.len() < 1 {
            return Err(ProgramError::NotEnoughAccountKeys);
        }
        if !accounts[0].is_signer {
            return Err(ProgramError::MissingRequiredSignature);
        }
        if accounts.len() < 2 {
            return Err(ProgramError::NotEnoughAccountKeys);
        }
        match Processor::ensure_uninitialized_ballot_state_account(program_id, &accounts[1]) {
            Ok(()) => {},
            Err(e) => {
                return Err(e);
            },
        }
        let ghost names = names_of(proposals@);
        let mut listed: Vec<Proposal> = Vec::new();
        let mut rest = proposals;
        let mut i: usize = 0;
        let count: usize = rest.len();
        while i < count
            invariant
                i <= count,
                count == rest.len(),
                names_of(rest@) == names,
                listed@.map_values(|p: Proposal| p@) == names.subrange(0, i as int).map_values(
                    |name: Seq<char>| ProposalState { name, vote_count: 0 },
                ),
            decreases count - i,
        {
            let name = rest[i].clone();
            proof {
                let done = listed@.map_values(|p: Proposal| p@);
                let p = Proposal { name, vote_count: 0 };
                assert(listed@.push(p).map_values(|p: Proposal| p@) =~= done.push(p@));
                assert(names[i as int] == rest@[i as int]@);
                assert(names.subrange(0, i + 1).map_values(
                    |name: Seq<char>| ProposalState { name, vote_count: 0 },
                ) =~= done.push(p@));
            }
            listed.push(Proposal { name, vote_count: 0 });
            i += 1;
        }
        assert(names.subrange(0, count as int) =~= names);
        let ballot_state = Ballot { is_initialized: true, chairperson, proposals: listed };
        assert(ballot_state@ == fresh_ballot(chairperson@, names));
        let bytes = match ballot_state.try_to_vec() {
            Some(bytes) => bytes,
            None => {
                return Err(ProgramError::BorshIoError);
            },
        };
        if bytes.len() > accounts[1].data.len() {
            return Err(ProgramError::BorshIoError);
        }
        let data = overwrite(&accounts[1].data, &bytes);
        store(accounts, 1, data);
        Ok(())
    }

    /// Casts the signer's vote for the proposal at `vote`.
    ///
    /// Accounts: the voter, who signs; the ballot; the voter's state.
    ///
    /// The refusals, in the order in which they are tested:
    /// `NotEnoughAccountKeys` and `MissingRequiredSignature` for the signer;
    /// what keeps the ballot from being read; `InvalidVote` where the ballot
    /// has no such proposal; what keeps the voter from being read;
    /// `AlreadyVoted`; `ArithmeticOverflow` where the count leaves 64 bits.
    ///
    /// Otherwise the voter has voted for `vote`, and the proposal's count has
    /// grown by the voter's weight.
    pub fn process_vote(program_id: &Address, accounts: &mut Vec<Account>, vote: u8) -> (r: Result<
        (),
        ProgramError,
    >)
        ensures
            vote_post(*program_id, old(accounts)@, final(accounts)@, r, vote),
    {
        if accounts.len() < 1 {
            return Err(ProgramError::NotEnoughAccountKeys);
        }
        if !accounts[0].is_signer {
            return Err(ProgramError::MissingRequiredSignature);
        }
        if accounts.len() < 2 {
            return Err(ProgramError::NotEnoughAccountKeys);
        }
        let mut ballot_state = match Processor::get_initialized_ballot_state(
            program_id,
            &accounts[1],
        ) {
            Ok(ballot) => ballot,
            Err(e) => {
                return Err(e);
            },
        };
        if vote as usize >= ballot_state.proposals.len() {
            return Err(ProgramError::from(VotingError::InvalidVote));
        }
        if accounts.len() < 3 {
            return Err(ProgramError::NotEnoughAccountKeys);
        }
        let mut voter_state = match Processor::get_initialized_voter_state(
            program_id,
            &accounts[2],
        ) {
            Ok(voter) => voter,
            Err(e) => {
                return Err(e);
            },
        };
        if voter_state.voted {
            return Err(ProgramError::from(VotingError::AlreadyVoted));
        }
        proof {
            lemma_counted_fits(accounts[1].data@, vote as int, voter_state.weight);
        }
        match add_votes(&mut ballot_state, vote as usize, voter_state.weight) {
            Ok(()) => {},
            Err(e) => {
                return Err(e);
            },
        }
        voter_state.voted = true;
        voter_state.vote = vote;
        let bytes = match ballot_state.try_to_vec() {
            Some(bytes) => bytes,
            None => {
                return Err(ProgramError::BorshIoError);
            },
        };
        if bytes.len() > accounts[1].data.len() {
            return Err(ProgramError::BorshIoError);
        }
        let ballot_data = overwrite(&accounts[1].data, &bytes);
        let mut voter_data: Vec<u8> = Vec::new();
        put_bytes(&mut voter_data, accounts[2].data.as_slice());
        voter_state.pack_into_slice(&mut voter_data);
        proof {
            Voter::lemma_unpack_pack(voter_state@, Seq::empty());
        }
        store(accounts, 1, ballot_data);
        store(accounts, 2, voter_data);
        Ok(())
    }
}

/// Adds `weight` to the count of the proposal at `index`.
///
/// Fails with `InvalidVote` where the ballot has no such proposal, and with
/// `ArithmeticOverflow` where the count would leave 64 bits; then the ballot
/// is as it was.
pub fn add_votes(ballot: &mut Ballot, index: usize, weight: u64) -> (r: Result<(), ProgramError>)
    ensures
        index >= old(ballot)@.proposals.len() ==> r == Err::<(), ProgramError>(
            ProgramError::Custom(VotingError::InvalidVote.number()),
        ) && *final(ballot) == *old(ballot),
        index < old(ballot)@.proposals.len() && old(ballot)@.proposals[index as int].vote_count
            + weight > u64::MAX ==> r == Err::<(), ProgramError>(ProgramError::ArithmeticOverflow)
            && *final(ballot) == *old(ballot),
        index < old(ballot)@.proposals.len() && old(ballot)@.proposals[index as int].vote_count
            + weight <= u64::MAX ==> r is Ok && final(ballot)@ == counted(
            old(ballot)@,
            index as int,
            weight,
        ),
{
    if index >= ballot.proposals.len() {
        return Err(ProgramError::from(VotingError::InvalidVote));
    }
    let total: u64 = match ballot.proposals[index].vote_count.checked_add(weight) {
        Some(total) => total,
        None => {
            return Err(ProgramError::ArithmeticOverflow);
        },
    };
    let name = ballot.proposals[index].name.clone();
    let ghost before = ballot@;
    ballot.proposals.set(index, Proposal { name, vote_count: total });
    assert(ballot@.proposals =~= counted(before, index as int, weight).proposals);
    Ok(())
}

/// Replaces the account at `index` by one that differs in owner, lamports
/// and data.
pub(crate) fn restore(accounts: &mut Vec<Account>, index: usize, owner: Address, lamports: u64, data: Vec<u8>)
    requires
        index < old(accounts).len(),
    ensures
        final(accounts).len() == old(accounts).len(),
        final(accounts)[index as int].key == old(accounts)[index as int].key,
        final(accounts)[index as int].is_signer == old(accounts)[index as int].is_signer,
        final(accounts)[index as int].owner == owner,
        final(accounts)[index as int].lamports == lamports,
        final(accounts)[index as int].data == data,
        forall|i: int|
            0 <= i < old(accounts).len() && i != index ==> final(accounts)[i] == old(accounts)[i],
{
    let account = &accounts[index];
    let replaced = Account {
        key: account.key,
        owner,
        is_signer: account.is_signer,
        lamports,
        data,
    };
    accounts.set(index, replaced);
}

/// A copy of `data`.
pub(crate) fn copy_of(data: &Vec<u8>) -> (r: Vec<u8>)
    ensures
        r@ == data@,
{
    let mut out: Vec<u8> = Vec::new();
    put_bytes(&mut out, data.as_slice());
    out
}

/// Follows the chain of delegations that starts with the fourth account.
///
/// Gives the place of the first account whose voter has not delegated, with
/// that voter. Fails with `NotEnoughAccountKeys` where there is no fourth
/// account, with `DelegateChainCycle` where the chain comes back to the voter
/// at `voter_key`, with what keeps a voter of the chain from being read, with
/// `NotEnoughAccountKeys` where the chain goes on and the accounts do not,
/// and with `MaxDelegateChainLimitExceeded` where five accounts have been
/// looked at and the chain goes on.
pub fn find_chain_end(program_id: &Address, accounts: &Vec<Account>, voter_key: &Address) -> (r:
    Result<(usize, Voter), ProgramError>)
    ensures
        match r {
            Ok((to, to_voter)) => {
                &&& chain_result(program_id@, accounts@, voter_key@) == Ok::<int, ProgramError>(
                    to as int,
                )
                &&& 3 <= to < accounts.len()
                &&& accounts[to as int].key@ != voter_key@
                &&& voter_in(program_id@, accounts[to as int]) == Ok::<VoterState, ProgramError>(
                    to_voter@,
                )
            },
            Err(e) => chain_result(program_id@, accounts@, voter_key@) == Err::<int, ProgramError>(
                e,
            ),
        },
{
    if accounts.len() < 4 {
        return Err(ProgramError::NotEnoughAccountKeys);
    }
    let mut at: usize = 3;
    let mut steps: usize = 0;
    while steps < MAX_DELEGATE_CHAIN
        invariant
            steps <= MAX_DELEGATE_CHAIN,
            at == 3 + steps,
            at < accounts.len(),
            chain_end(program_id@, accounts@, voter_key@, 3, MAX_DELEGATE_CHAIN as nat)
                == chain_end(
                program_id@,
                accounts@,
                voter_key@,
                at as int,
                (MAX_DELEGATE_CHAIN - steps) as nat,
            ),
        decreases MAX_DELEGATE_CHAIN - steps,
    {
        if accounts[at].key == *voter_key {
            return Err(ProgramError::from(VotingError::DelegateChainCycle));
        }
        let to_voter_state = match Processor::get_initialized_voter_state(
            program_id,
            &accounts[at],
        ) {
            Ok(voter) => voter,
            Err(e) => {
                return Err(e);
            },
        };
        if to_voter_state.delegate.is_default() {
            return Ok((at, to_voter_state));
        }
        if at + 1 >= accounts.len() {
            return Err(ProgramError::NotEnoughAccountKeys);
        }
        at += 1;
        steps += 1;
    }
    Err(ProgramError::from(VotingError::MaxDelegateChainLimitExceeded))
}

impl Processor {
    /// Says which account the system program has to create for the state of
    /// `voter`: paid by the chairperson, of the size of a voter, owned by the
    /// program, and signed for with the seeds of the voter's address.
    pub fn create_voter_data_account(
        program_id: &Address,
        chairperson_account: &Account,
        ballot_state_account: &Account,
        voter_state_account: &Account,
        voter: &Address,
        voter_bump_seed: u8,
        rent: u64,
    ) -> (r: CreateAccount)
        ensures
            r.from == chairperson_account.key,
            r.to == voter_state_account.key,
            r.lamports == rent,
            r.space == Voter::LEN,
            r.owner == *program_id,
            r.signer_seeds@.map_values(|seed: Vec<u8>| seed@) == voter_signer_seeds(
                ballot_state_account.key@,
                voter@,
                voter_bump_seed,
            ),
    {
        let mut word: Vec<u8> = Vec::new();
        put_bytes(&mut word, VOTER_SEED.as_slice());
        let mut ballot: Vec<u8> = Vec::new();
        put_bytes(&mut ballot, ballot_state_account.key.bytes.as_slice());
        let mut who: Vec<u8> = Vec::new();
        put_bytes(&mut who, voter.bytes.as_slice());
        let mut bump: Vec<u8> = Vec::new();
        bump.push(voter_bump_seed);
        let mut signer_seeds: Vec<Vec<u8>> = Vec::new();
        signer_seeds.push(word);
        signer_seeds.push(ballot);
        signer_seeds.push(who);
        signer_seeds.push(bump);
        proof {
            let seeds = signer_seeds@.map_values(|seed: Vec<u8>| seed@);
            assert(seeds[0] =~= VOTER_SEED@);
            assert(seeds[1] =~= ballot_state_account.key@);
            assert(seeds[2] =~= voter@);
            assert(seeds[3] =~= seq![voter_bump_seed]);
            assert(seeds =~= voter_signer_seeds(
                ballot_state_account.key@,
                voter@,
                voter_bump_seed,
            ));
        }
        CreateAccount {
            from: chairperson_account.key,
            to: voter_state_account.key,
            lamports: rent,
            space: 42,
            owner: *program_id,
            signer_seeds,
        }
    }

    /// Gives `voter` the right to vote: a state of weight one that has
    /// neither voted nor delegated. `rent` is what the ledger asks an
    /// account of the size of a voter to hold.
    ///
    /// Accounts: the chairperson, who signs; the ballot; the voter's state.
    ///
    /// The refusals, in the order in which they are tested:
    /// `NotEnoughAccountKeys` and `MissingRequiredSignature` for the
    /// chairperson; what keeps the ballot from being read; `IllegalOwner`,
    /// `InvalidAccountData` and `AccountAlreadyInitialized` for a state
    /// account that holds data; and for one that holds none,
    /// `InsufficientFunds` where the chairperson cannot pay for it and
    /// `ArithmeticOverflow` where it cannot hold more.
    ///
    /// A state account without data has to be created first. The result then
    /// says what to ask of the system program, and the accounts are left as
    /// that creation and the writing of the voter leave them.
    pub fn process_add_voter(
        program_id: &Address,
        accounts: &mut Vec<Account>,
        voter: Address,
        voter_bump_seed: u8,
        rent: u64,
    ) -> (r: Result<Option<CreateAccount>, ProgramError>)
        ensures
            add_voter_post(
                *program_id,
                old(accounts)@,
                final(accounts)@,
                r,
                voter,
                voter_bump_seed,
                rent,
            ),
    {
        if accounts.len() < 1 {
            return Err(ProgramError::NotEnoughAccountKeys);
        }
        if !accounts[0].is_signer {
            return Err(ProgramError::MissingRequiredSignature);
        }
        if accounts.len() < 2 {
            return Err(ProgramError::NotEnoughAccountKeys);
        }
        match Processor::get_initialized_ballot_state(program_id, &accounts[1]) {
            Ok(_) => {},
            Err(e) => {
                return Err(e);
            },
        }
        if accounts.len() < 3 {
            return Err(ProgramError::NotEnoughAccountKeys);
        }
        match Processor::ensure_uninitialized_voter_state_account(program_id, &accounts[2]) {
            Ok(()) => {},
            Err(e) => {
                return Err(e);
            },
        }
        let voter_state = Voter { voted: false, vote: 0, weight: 1, delegate: Address::default() };
        assert(voter_state@ == new_voter());
        proof {
            Voter::lemma_unpack_pack(voter_state@, Seq::empty());
        }
        if accounts[2].data.len() == 0 {
            if accounts[0].lamports < rent {
                return Err(ProgramError::InsufficientFunds);
            }
            let funded: u64 = match accounts[2].lamports.checked_add(rent) {
                Some(funded) => funded,
                None => {
                    return Err(ProgramError::ArithmeticOverflow);
                },
            };
            let action = Processor::create_voter_data_account(
                program_id,
                &accounts[0],
                &accounts[1],
                &accounts[2],
                &voter,
                voter_bump_seed,
                rent,
            );
            let mut data: Vec<u8> = Vec::new();
            let mut i: usize = 0;
            while i < 42
                invariant
                    i <= 42,
                    data.len() == i,
                decreases 42 - i,
            {
                data.push(0);
                i += 1;
            }
            voter_state.pack_into_slice(&mut data);
            assert(data@ =~= voter_bytes(new_voter()));
            let payer_owner = accounts[0].owner;
            let payer_lamports: u64 = accounts[0].lamports - rent;
            let payer_data = copy_of(&accounts[0].data);
            restore(accounts, 0, payer_owner, payer_lamports, payer_data);
            restore(accounts, 2, *program_id, funded, data);
            Ok(Some(action))
        } else {
            let mut data = copy_of(&accounts[2].data);
            voter_state.pack_into_slice(&mut data);
            store(accounts, 2, data);
            Ok(None)
        }
    }

    /// Hands the signer's vote to the voter at the end of the chain of
    /// delegations that the accounts spell out.
    ///
    /// Accounts: the voter, who signs; the ballot; the voter's state; the
    /// state of the voter delegated to, then of the one that voter has
    /// delegated to, and so on.
    ///
    /// The refusals, in the order in which they are tested:
    /// `NotEnoughAccountKeys` and `MissingRequiredSignature` for the signer;
    /// what keeps the ballot from being read; what keeps the voter from
    /// being read; `AlreadyVoted`; `NotEnoughAccountKeys` where the chain is
    /// missing; what keeps the chain from being followed to its end (see
    /// [`find_chain_end`]); `InvalidVote` where the one at the end has voted
    /// for a proposal that the ballot does not have; `ArithmeticOverflow`
    /// where a count or a weight leaves 64 bits.
    ///
    /// Otherwise the voter has delegated to the account at the end of the
    /// chain. Where the voter there has voted, the proposal voted for has
    /// grown by the weight handed over; where not, that voter's weight has.
    pub fn process_delegate_vote(program_id: &Address, accounts: &mut Vec<Account>) -> (r: Result<
        (),
        ProgramError,
    >)
        ensures
            delegate_post(*program_id, old(accounts)@, final(accounts)@, r),
    {
        if accounts.len() < 1 {
            return Err(ProgramError::NotEnoughAccountKeys);
        }
        if !accounts[0].is_signer {
            return Err(ProgramError::MissingRequiredSignature);
        }
        if accounts.len() < 2 {
            return Err(ProgramError::NotEnoughAccountKeys);
        }
        let mut ballot_state = match Processor::get_initialized_ballot_state(
            program_id,
            &accounts[1],
        ) {
            Ok(ballot) => ballot,
            Err(e) => {
                return Err(e);
            },
        };
        if accounts.len() < 3 {
            return Err(ProgramError::NotEnoughAccountKeys);
        }
        let mut voter_state = match Processor::get_initialized_voter_state(
            program_id,
            &accounts[2],
        ) {
            Ok(voter) => voter,
            Err(e) => {
                return Err(e);
            },
        };
        if voter_state.voted {
            return Err(ProgramError::from(VotingError::AlreadyVoted));
        }
        let voter_key = accounts[2].key;
        let (to, mut to_voter_state) = match find_chain_end(program_id, accounts, &voter_key) {
            Ok(found) => found,
            Err(e) => {
                return Err(e);
            },
        };
        voter_state.voted = true;
        voter_state.delegate = accounts[to].key;
        proof {
            Voter::lemma_unpack_pack(voter_state@, Seq::empty());
            Voter::lemma_unpack_pack(to_voter_state@, Seq::empty());
        }
        if to_voter_state.voted {
            proof {
                if to_voter_state.vote < ballot_state@.proposals.len() {
                    lemma_counted_fits(
                        accounts[1].data@,
                        to_voter_state.vote as int,
                        voter_state.weight,
                    );
                }
            }
            match add_votes(&mut ballot_state, to_voter_state.vote as usize, voter_state.weight) {
                Ok(()) => {},
                Err(e) => {
                    return Err(e);
                },
            }
            let bytes = match ballot_state.try_to_vec() {
                Some(bytes) => bytes,
                None => {
                    return Err(ProgramError::BorshIoError);
                },
            };
            if bytes.len() > accounts[1].data.len() {
                return Err(ProgramError::BorshIoError);
            }
            let ballot_data = overwrite(&accounts[1].data, &bytes);
            let mut voter_data = copy_of(&accounts[2].data);
            voter_state.pack_into_slice(&mut voter_data);
            store(accounts, 1, ballot_data);
            store(accounts, 2, voter_data);
        } else {
            let weight: u64 = match to_voter_state.weight.checked_add(voter_state.weight) {
                Some(weight) => weight,
                None => {
                    return Err(ProgramError::ArithmeticOverflow);
                },
            };
            to_voter_state.weight = weight;
            let mut voter_data = copy_of(&accounts[2].data);
            voter_state.pack_into_slice(&mut voter_data);
            let mut to_data = copy_of(&accounts[to].data);
            to_voter_state.pack_into_slice(&mut to_data);
            store(accounts, 2, voter_data);
            store(accounts, to, to_data);
        }
        Ok(())
    }
}

/// The outcome of an instruction without what it asks of the system
/// program.
pub open spec fn plain(r: Result<Option<CreateAccount>, ProgramError>) -> Result<(), ProgramError> {
    match r {
        Ok(_) => Ok(()),
        Err(e) => Err(e),
    }
}

/// What an instruction leaves, given the data that says which it is.
pub open spec fn instruction_post(
    program_id: Address,
    before: Seq<Account>,
    after: Seq<Account>,
    r: Result<Option<CreateAccount>, ProgramError>,
    instruction_data: Seq<u8>,
    rent: u64,
) -> bool {
    match parse_instruction(instruction_data) {
        None => r == Err::<Option<CreateAccount>, ProgramError>(
            ProgramError::InvalidInstructionData,
        ) && after == before,
        Some(InstructionState::InitBallot { chairperson, proposals }) => {
            &&& init_ballot_post(program_id, before, after, plain(r), chairperson, proposals)
            &&& r is Ok ==> r->Ok_0 is None
        },
        Some(InstructionState::AddVoter { voter, voter_bump_seed }) => exists|who: Address|
            #![trigger who@]
            who@ == voter && add_voter_post(
                program_id,
                before,
                after,
                r,
                who,
                voter_bump_seed,
                rent,
            ),
        Some(InstructionState::DelegateVote) => {
            &&& delegate_post(program_id, before, after, plain(r))
            &&& r is Ok ==> r->Ok_0 is None
        },
        Some(InstructionState::Vote { vote }) => {
            &&& vote_post(program_id, before, after, plain(r), vote)
            &&& r is Ok ==> r->Ok_0 is None
        },
    }
}

impl Processor {
    /// Reads the instruction from `instruction_data` and carries it out on
    /// `accounts`. `rent` is what the ledger asks an account of the size of
    /// a voter to hold.
    ///
    /// Fails with `InvalidInstructionData` where the data holds no
    /// instruction. Otherwise the outcome is that of the instruction:
    /// see [`Processor::process_init_ballot`],
    /// [`Processor::process_add_voter`],
    /// [`Processor::process_delegate_vote`] and
    /// [`Processor::process_vote`].
    pub fn process_instruction(
        program_id: &Address,
        accounts: &mut Vec<Account>,
        instruction_data: &[u8],
        rent: u64,
    ) -> (r: Result<Option<CreateAccount>, ProgramError>)
        ensures
            instruction_post(
                *program_id,
                old(accounts)@,
                final(accounts)@,
                r,
                instruction_data@,
                rent,
            ),
    {
        let instruction = match VotingInstruction::try_from_slice(instruction_data) {
            Some(instruction) => instruction,
            None => {
                return Err(ProgramError::InvalidInstructionData);
            },
        };
        match instruction {
            VotingInstruction::InitBallot { chairperson, proposals } => {
                assert(names_of(proposals@) =~= proposals@.map_values(|name: String| name@));
                match Processor::process_init_ballot(program_id, accounts, chairperson, proposals) {
                    Ok(()) => Ok(None),
                    Err(e) => Err(e),
                }
            },
            VotingInstruction::AddVoter { voter, voter_bump_seed } => {
                Processor::process_add_voter(program_id, accounts, voter, voter_bump_seed, rent)
            },
            VotingInstruction::DelegateVote => {
                match Processor::process_delegate_vote(program_id, accounts) {
                    Ok(()) => Ok(None),
                    Err(e) => Err(e),
                }
            },
            VotingInstruction::Vote { vote } => {
                match Processor::process_vote(program_id, accounts, vote) {
                    Ok(()) => Ok(None),
                    Err(e) => Err(e),
                }
            },
        }
    }
}

} // verus!
