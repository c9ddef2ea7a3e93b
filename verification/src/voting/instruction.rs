//! The instructions that the ballot program takes, their layout in
//! instruction data, and how a client builds them.

use vstd::prelude::*;
use vstd::bytes::spec_u32_to_le_bytes;
use vstd::slice::slice_subrange;
use vstd::utf8::{decode_utf8, encode_utf8, valid_utf8};
use crate::address::Address;
use crate::ledger::{system_program_id, AccountMeta, Instruction, ProgramError};
use crate::wire::{
    field, get_address, get_u32, get_u8, has_room, holds, put_address, put_bytes, put_u32,
    string_from_utf8, u32_at,
};

verus! {

/// What the ballot program can be asked to do.
#[derive(Clone, Debug, PartialEq, Eq)]
pub enum VotingInstruction {
    /// Open a ballot.
    ///
    /// Accounts: the payer, who signs; the ballot.
    InitBallot { chairperson: Address, proposals: Vec<String> },
    /// Give a voter the right to vote.
    ///
    /// Accounts: the chairperson, who signs; the ballot; the voter's state;
    /// the system program.
    AddVoter { voter: Address, voter_bump_seed: u8 },
    /// Hand the signer's vote to another voter.
    ///
    /// Accounts: the voter, who signs; the ballot; the voter's state; the
    /// state of the voter delegated to, then of the one that voter has
    /// delegated to, and so on.
    DelegateVote,
    /// Vote for a proposal.
    ///
    /// Accounts: the voter, who signs; the ballot; the voter's state.
    Vote { vote: u8 },
}

/// The model of [`VotingInstruction`].
pub enum InstructionState {
    InitBallot { chairperson: Seq<u8>, proposals: Seq<Seq<char>> },
    AddVoter { voter: Seq<u8>, voter_bump_seed: u8 },
    DelegateVote,
    Vote { vote: u8 },
}

impl View for VotingInstruction {
    type V = InstructionState;

    open spec fn view(&self) -> InstructionState {
        match *self {
            VotingInstruction::InitBallot { chairperson, proposals } => InstructionState::InitBallot {
                chairperson: chairperson@,
                proposals: proposals@.map_values(|name: String| name@),
            },
            VotingInstruction::AddVoter { voter, voter_bump_seed } => InstructionState::AddVoter {
                voter: voter@,
                voter_bump_seed,
            },
            VotingInstruction::DelegateVote => InstructionState::DelegateVote,
            VotingInstruction::Vote { vote } => InstructionState::Vote { vote },
        }
    }
}

/// The layout of a name: its bytes behind their number.
pub open spec fn name_bytes(name: Seq<char>) -> Seq<u8> {
    spec_u32_to_le_bytes(encode_utf8(name).len() as u32) + encode_utf8(name)
}

/// The layout of a list of names, one after the other.
pub open spec fn names_bytes(names: Seq<Seq<char>>) -> Seq<u8>
    decreases names.len(),
{
    if names.len() == 0 {
        Seq::empty()
    } else {
        names_bytes(names.drop_last()) + name_bytes(names.last())
    }
}

/// The layout of an instruction: one byte that tells which it is, then its
/// fields.
pub open spec fn instruction_bytes(i: InstructionState) -> Seq<u8> {
    match i {
        InstructionState::InitBallot { chairperson, proposals } => seq![0u8] + chairperson
            + spec_u32_to_le_bytes(proposals.len() as u32) + names_bytes(proposals),
        InstructionState::AddVoter { voter, voter_bump_seed } => seq![1u8] + voter
            + seq![voter_bump_seed],
        InstructionState::DelegateVote => seq![2u8],
        InstructionState::Vote { vote } => seq![3u8, vote],
    }
}

/// Whether the layout can hold the instruction: every length fits in 32
/// bits.
pub open spec fn instruction_encodable(i: InstructionState) -> bool {
    i matches InstructionState::InitBallot { proposals, .. } ==> {
        &&& proposals.len() <= u32::MAX
        &&& forall|k: int|
            0 <= k < proposals.len() ==> encode_utf8(#[trigger] proposals[k]).len() <= u32::MAX
    }
}

/// The name at `pos`, with the position behind it.
pub open spec fn parse_name(s: Seq<u8>, pos: int) -> Option<(Seq<char>, int)> {
    if !holds(s, pos, 4) {
        None
    } else {
        let n = u32_at(s, pos) as int;
        if !holds(s, pos + 4, n) || !valid_utf8(field(s, pos + 4, n)) {
            None
        } else {
            Some((decode_utf8(field(s, pos + 4, n)), pos + 4 + n))
        }
    }
}

/// The `count` names from `pos` on, with the position behind them.
pub open spec fn parse_names(s: Seq<u8>, pos: int, count: nat) -> Option<(Seq<Seq<char>>, int)>
    decreases count,
{
    if count == 0 {
        Some((Seq::empty(), pos))
    } else {
        match parse_names(s, pos, (count - 1) as nat) {
            None => None,
            Some((before, at)) => match parse_name(s, at) {
                None => None,
                Some((name, next)) => Some((before.push(name), next)),
            },
        }
    }
}

/// The instruction that `s` holds, if it holds one and nothing else.
pub open spec fn parse_instruction(s: Seq<u8>) -> Option<InstructionState> {
    if s.len() == 0 {
        None
    } else if s[0] == 0 {
        if !holds(s, 1, 36) {
            None
        } else {
            match parse_names(s, 37, u32_at(s, 33) as nat) {
                None => None,
                Some((proposals, end)) => if end == s.len() {
                    Some(InstructionState::InitBallot { chairperson: field(s, 1, 32), proposals })
                } else {
                    None
                },
            }
        }
    } else if s[0] == 1 {
        if s.len() == 34 {
            Some(InstructionState::AddVoter { voter: field(s, 1, 32), voter_bump_seed: s[33] })
        } else {
            None
        }
    } else if s[0] == 2 {
        if s.len() == 1 {
            Some(InstructionState::DelegateVote)
        } else {
            None
        }
    } else if s[0] == 3 {
        if s.len() == 2 {
            Some(InstructionState::Vote { vote: s[1] })
        } else {
            None
        }
    } else {
        None
    }
}

/// Where fewer names cannot be read, more cannot either.
pub proof fn lemma_names_fail_on(s: Seq<u8>, pos: int, fewer: nat, count: nat)
    requires
        fewer <= count,
        parse_names(s, pos, fewer) is None,
    ensures
        parse_names(s, pos, count) is None,
    decreases count,
{
    if fewer < count {
        lemma_names_fail_on(s, pos, fewer, (count - 1) as nat);
    }
}

/// Reads the name at `pos`, and says where it ends.
pub fn read_name(data: &[u8], pos: usize) -> (r: Option<(String, usize)>)
    ensures
        match r {
            Some((name, next)) => parse_name(data@, pos as int) == Some((name@, next as int)),
            None => parse_name(data@, pos as int) is None,
        },
{
    let n: usize = match get_u32(data, pos) {
        Some(n) => n as usize,
        None => {
            return None;
        },
    };
    let start: usize = pos + 4;
    if !has_room(data, start, n) {
        return None;
    }
    let mut raw: Vec<u8> = Vec::new();
    put_bytes(&mut raw, slice_subrange(data, start, start + n));
    assert(raw@ =~= field(data@, start as int, n as int));
    match string_from_utf8(raw) {
        Some(name) => Some((name, start + n)),
        None => None,
    }
}

impl VotingInstruction {
    /// Reads an instruction from `data`, which must hold it and nothing
    /// else.
    pub fn try_from_slice(data: &[u8]) -> (r: Option<VotingInstruction>)
        ensures
            match r {
                Some(i) => parse_instruction(data@) == Some(i@),
                None => parse_instruction(data@) is None,
            },
    {
        let tag: u8 = match get_u8(data, 0) {
            Some(tag) => tag,
            None => {
                return None;
            },
        };
        if tag == 0 {
            let chairperson: Address = match get_address(data, 1) {
                Some(a) => a,
                None => {
                    return None;
                },
            };
            let count: u32 = match get_u32(data, 33) {
                Some(n) => n,
                None => {
                    return None;
                },
            };
            let mut proposals: Vec<String> = Vec::new();
            let mut pos: usize = 37;
            let mut i: u32 = 0;
            while i < count
                invariant
                    i <= count,
                    holds(data@, 1, 36),
                    data@[0] == 0,
                    count == u32_at(data@, 33),
                    parse_names(data@, 37, i as nat) == Some(
                        (proposals@.map_values(|name: String| name@), pos as int),
                    ),
                decreases count - i,
            {
                match read_name(data, pos) {
                    None => {
                        proof {
                            assert(parse_names(data@, 37, (i + 1) as nat) is None);
                            lemma_names_fail_on(data@, 37, (i + 1) as nat, count as nat);
                        }
                        return None;
                    },
                    Some((name, next)) => {
                        proof {
                            let before = proposals@.map_values(|name: String| name@);
                            assert(proposals@.push(name).map_values(|name: String| name@)
                                =~= before.push(name@));
                        }
                        proposals.push(name);
                        pos = next;
                    },
                }
                i += 1;
            }
            if pos != data.len() {
                return None;
            }
            Some(VotingInstruction::InitBallot { chairperson, proposals })
        } else if tag == 1 {
            if data.len() != 34 {
                return None;
            }
            let voter: Address = match get_address(data, 1) {
                Some(a) => a,
                None => {
                    return None;
                },
            };
            Some(VotingInstruction::AddVoter { voter, voter_bump_seed: data[33] })
        } else if tag == 2 {
            if data.len() != 1 {
                return None;
            }
            Some(VotingInstruction::DelegateVote)
        } else if tag == 3 {
            if data.len() != 2 {
                return None;
            }
            Some(VotingInstruction::Vote { vote: data[1] })
        } else {
            None
        }
    }

    /// Lays the instruction out in bytes.
    ///
    /// `None` exactly where the layout cannot hold it: it names more than
    /// `u32::MAX` proposals, or one of more than `u32::MAX` bytes.
    pub fn try_to_vec(&self) -> (r: Option<Vec<u8>>)
        ensures
            match r {
                Some(bytes) => instruction_encodable(self@) && bytes@ == instruction_bytes(self@),
                None => !instruction_encodable(self@),
            },
    {
        let mut out: Vec<u8> = Vec::new();
        match self {
            VotingInstruction::InitBallot { chairperson, proposals } => {
                out.push(0);
                put_address(&mut out, chairperson);
                if proposals.len() > u32::MAX as usize {
                    return None;
                }
                put_u32(&mut out, proposals.len() as u32);
                let ghost head = out@;
                let ghost all = proposals@.map_values(|name: String| name@);
                let mut i: usize = 0;
                while i < proposals.len()
                    invariant
                        i <= proposals.len(),
                        all == proposals@.map_values(|name: String| name@),
                        self@ == (InstructionState::InitBallot {
                            chairperson: chairperson@,
                            proposals: all,
                        }),
                        out@ == head + names_bytes(all.subrange(0, i as int)),
                        forall|j: int| 0 <= j < i ==> encode_utf8(#[trigger] all[j]).len() <= u32::MAX,
                    decreases proposals.len() - i,
                {
                    let name = proposals[i].as_str().as_bytes();
                    if name.len() > u32::MAX as usize {
                        assert(encode_utf8(all[i as int]).len() > u32::MAX);
                        return None;
                    }
                    put_u32(&mut out, name.len() as u32);
                    put_bytes(&mut out, name);
                    proof {
                        let upto = all.subrange(0, i + 1);
                        assert(upto.drop_last() =~= all.subrange(0, i as int));
                        assert(upto.last() == all[i as int]);
                        assert(out@ =~= head + names_bytes(upto));
                    }
                    i += 1;
                }
                assert(all.subrange(0, all.len() as int) =~= all);
                assert(out@ =~= instruction_bytes(self@));
            },
            VotingInstruction::AddVoter { voter, voter_bump_seed } => {
                out.push(1);
                put_address(&mut out, voter);
                out.push(*voter_bump_seed);
                assert(out@ =~= instruction_bytes(self@));
            },
            VotingInstruction::DelegateVote => {
                out.push(2);
                assert(out@ =~= instruction_bytes(self@));
            },
            VotingInstruction::Vote { vote } => {
                out.push(3);
                out.push(*vote);
                assert(out@ =~= instruction_bytes(self@));
            },
        }
        Some(out)
    }
}

/// What a builder hands back for `instruction_data` and the accounts
/// `metas`: the instruction for the program, or `BorshIoError` where the data
/// cannot be laid out.
pub open spec fn built(
    r: Result<Instruction, ProgramError>,
    program_id: Address,
    instruction_data: InstructionState,
    metas: Seq<AccountMeta>,
) -> bool {
    match r {
        Ok(instruction) => {
            &&& instruction_encodable(instruction_data)
            &&& instruction.program_id == program_id
            &&& instruction.accounts@ == metas
            &&& instruction.data@ == instruction_bytes(instruction_data)
        },
        Err(e) => e == ProgramError::BorshIoError && !instruction_encodable(instruction_data),
    }
}

/// An account that the program may change.
pub open spec fn writable(pubkey: Address, is_signer: bool) -> AccountMeta {
    AccountMeta { pubkey, is_signer, is_writable: true }
}

/// An account that the program only reads.
pub open spec fn readonly(pubkey: Address, is_signer: bool) -> AccountMeta {
    AccountMeta { pubkey, is_signer, is_writable: false }
}

/// Builds the instruction that opens a ballot: the payer signs and pays, the
/// ballot is written.
pub fn init_ballot(
    program_id: Address,
    instruction_data: VotingInstruction,
    payer_key: Address,
    ballot_state_key: Address,
) -> (r: Result<Instruction, ProgramError>)
    ensures
        built(
            r,
            program_id,
            instruction_data@,
            seq![writable(payer_key, true), writable(ballot_state_key, false)],
        ),
{
    let data = match instruction_data.try_to_vec() {
        Some(data) => data,
        None => {
            return Err(ProgramError::BorshIoError);
        },
    };
    let mut accounts: Vec<AccountMeta> = Vec::new();
    accounts.push(AccountMeta::new(payer_key, true));
    accounts.push(AccountMeta::new(ballot_state_key, false));
    assert(accounts@ =~= seq![writable(payer_key, true), writable(ballot_state_key, false)]);
    Ok(Instruction { program_id, accounts, data })
}

/// Builds the instruction that adds a voter: the chairperson signs and pays,
/// the ballot is read, the voter's state is written, and the system program
/// is there to create it.
pub fn add_voter(
    program_id: Address,
    instruction_data: VotingInstruction,
    chairperson_key: Address,
    ballot_state_key: Address,
    voter_state_key: Address,
) -> (r: Result<Instruction, ProgramError>)
    ensures
        built(
            r,
            program_id,
            instruction_data@,
            seq![
                writable(chairperson_key, true),
                readonly(ballot_state_key, false),
                writable(voter_state_key, false),
                readonly(Address::nobody(), false),
            ],
        ),
{
    let data = match instruction_data.try_to_vec() {
        Some(data) => data,
        None => {
            return Err(ProgramError::BorshIoError);
        },
    };
    let mut accounts: Vec<AccountMeta> = Vec::new();
    accounts.push(AccountMeta::new(chairperson_key, true));
    accounts.push(AccountMeta::new_readonly(ballot_state_key, false));
    accounts.push(AccountMeta::new(voter_state_key, false));
    accounts.push(AccountMeta::new_readonly(system_program_id(), false));
    assert(accounts@ =~= seq![
        writable(chairperson_key, true),
        readonly(ballot_state_key, false),
        writable(voter_state_key, false),
        readonly(Address::nobody(), false),
    ]);
    Ok(Instruction { program_id, accounts, data })
}

/// The accounts of a delegation: the three of the voter, then the states
/// along the chain, each of them written.
pub open spec fn delegation_accounts(
    voter_key: Address,
    ballot_state_key: Address,
    voter_state_key: Address,
    to_voter_state_keys: Seq<Address>,
) -> Seq<AccountMeta> {
    seq![
        writable(voter_key, true),
        writable(ballot_state_key, false),
        writable(voter_state_key, false),
    ] + to_voter_state_keys.map_values(|key: Address| writable(key, false))
}

/// Builds the instruction that delegates a vote along the chain
/// `to_voter_state_keys`.
pub fn delegate_vote(
    program_id: Address,
    instruction_data: VotingInstruction,
    voter_key: Address,
    ballot_state_key: Address,
    voter_state_key: Address,
    to_voter_state_keys: &[Address],
) -> (r: Result<Instruction, ProgramError>)
    ensures
        built(
            r,
            program_id,
            instruction_data@,
            delegation_accounts(voter_key, ballot_state_key, voter_state_key, to_voter_state_keys@),
        ),
{
    let data = match instruction_data.try_to_vec() {
        Some(data) => data,
        None => {
            return Err(ProgramError::BorshIoError);
        },
    };
    let mut accounts: Vec<AccountMeta> = Vec::new();
    accounts.push(AccountMeta::new(voter_key, true));
    accounts.push(AccountMeta::new(ballot_state_key, false));
    accounts.push(AccountMeta::new(voter_state_key, false));
    let ghost head = accounts@;
    let mut i: usize = 0;
    while i < to_voter_state_keys.len()
        invariant
            i <= to_voter_state_keys.len(),
            accounts@ == head + to_voter_state_keys@.subrange(0, i as int).map_values(
                |key: Address| writable(key, false),
            ),
        decreases to_voter_state_keys.len() - i,
    {
        accounts.push(AccountMeta::new(to_voter_state_keys[i], false));
        assert(to_voter_state_keys@.subrange(0, i + 1).map_values(
            |key: Address| writable(key, false),
        ) =~= to_voter_state_keys@.subrange(0, i as int).map_values(
            |key: Address| writable(key, false),
        ).push(writable(to_voter_state_keys@[i as int], false)));
        i += 1;
    }
    assert(to_voter_state_keys@.subrange(0, to_voter_state_keys@.len() as int)
        =~= to_voter_state_keys@);
    assert(head =~= seq![
        writable(voter_key, true),
        writable(ballot_state_key, false),
        writable(voter_state_key, false),
    ]);
    Ok(Instruction { program_id, accounts, data })
}

/// Builds the instruction that casts a vote: the voter signs, the ballot
/// and the voter's state are written.
pub fn vote(
    program_id: Address,
    instruction_data: VotingInstruction,
    voter_key: Address,
    ballot_state_key: Address,
    voter_state_key: Address,
) -> (r: Result<Instruction, ProgramError>)
    ensures
        built(
            r,
            program_id,
            instruction_data@,
            seq![
                writable(voter_key, true),
                writable(ballot_state_key, false),
                writable(voter_state_key, false),
            ],
        ),
{
    let data = match instruction_data.try_to_vec() {
        Some(data) => data,
        None => {
            return Err(ProgramError::BorshIoError);
        },
    };
    let mut accounts: Vec<AccountMeta> = Vec::new();
    accounts.push(AccountMeta::new(voter_key, true));
    accounts.push(AccountMeta::new(ballot_state_key, false));
    accounts.push(AccountMeta::new(voter_state_key, false));
    assert(accounts@ =~= seq![
        writable(voter_key, true),
        writable(ballot_state_key, false),
        writable(voter_state_key, false),
    ]);
    Ok(Instruction { program_id, accounts, data })
}

/// The layout of two lists of names, one after the other, is the layout of
/// the one list.
pub proof fn lemma_names_bytes_add(a: Seq<Seq<char>>, b: Seq<Seq<char>>)
    ensures
        names_bytes(a + b) == names_bytes(a) + names_bytes(b),
    decreases b.len(),
{
    if b.len() == 0 {
        assert(a + b =~= a);
        assert(names_bytes(a) + names_bytes(b) =~= names_bytes(a));
    } else {
        lemma_names_bytes_add(a, b.drop_last());
        assert((a + b).drop_last() =~= a + b.drop_last());
        assert((a + b).last() == b.last());
        assert(names_bytes(a + b) =~= names_bytes(a) + names_bytes(b));
    }
}

/// A name that has been laid out can be read again where it stands,
/// whatever stands before and behind it.
pub proof fn lemma_parse_name_bytes(before: Seq<u8>, name: Seq<char>, behind: Seq<u8>)
    requires
        encode_utf8(name).len() <= u32::MAX,
    ensures
        parse_name(before + name_bytes(name) + behind, before.len() as int) == Some(
            (name, (before.len() + name_bytes(name).len()) as int),
        ),
{
    vstd::bytes::lemma_auto_spec_u32_to_from_le_bytes();
    vstd::utf8::encode_utf8_valid_utf8(name);
    vstd::utf8::encode_utf8_decode_utf8(name);
    let s = before + name_bytes(name) + behind;
    let at = before.len() as int;
    let raw = encode_utf8(name);
    let n = raw.len() as int;
    assert(field(s, at, 4) =~= spec_u32_to_le_bytes(n as u32));
    assert(u32_at(s, at) == n as u32);
    assert(field(s, at + 4, n) =~= raw);
}

/// The first names of a list that has been laid out can be read again,
/// whatever stands before and behind the list.
pub proof fn lemma_parse_names_bytes(
    before: Seq<u8>,
    names: Seq<Seq<char>>,
    behind: Seq<u8>,
    count: nat,
)
    requires
        count <= names.len(),
        forall|i: int| 0 <= i < names.len() ==> encode_utf8(#[trigger] names[i]).len() <= u32::MAX,
    ensures
        parse_names(before + names_bytes(names) + behind, before.len() as int, count) == Some(
            (
                names.subrange(0, count as int),
                (before.len() + names_bytes(names.subrange(0, count as int)).len()) as int,
            ),
        ),
    decreases count,
{
    let s = before + names_bytes(names) + behind;
    if count == 0 {
        assert(names.subrange(0, 0) =~= Seq::<Seq<char>>::empty());
    } else {
        let k = (count - 1) as nat;
        lemma_parse_names_bytes(before, names, behind, k);
        let done = names.subrange(0, k as int);
        let name = names[k as int];
        let rest = names.subrange(count as int, names.len() as int);
        assert(names =~= done.push(name) + rest);
        lemma_names_bytes_add(done.push(name), rest);
        assert(done.push(name).drop_last() =~= done);
        assert(names_bytes(done.push(name)) == names_bytes(done) + name_bytes(name));
        lemma_parse_name_bytes(before + names_bytes(done), name, names_bytes(rest) + behind);
        assert(s =~= (before + names_bytes(done)) + name_bytes(name) + (names_bytes(rest)
            + behind));
        assert(names.subrange(0, count as int) =~= done.push(name));
    }
}

/// An instruction that has been laid out can be read again.
pub proof fn lemma_parse_instruction_bytes(i: InstructionState)
    requires
        instruction_encodable(i),
        i matches InstructionState::InitBallot { chairperson, .. } ==> chairperson.len() == 32,
        i matches InstructionState::AddVoter { voter, .. } ==> voter.len() == 32,
    ensures
        parse_instruction(instruction_bytes(i)) == Some(i),
{
    vstd::bytes::lemma_auto_spec_u32_to_from_le_bytes();
    let s = instruction_bytes(i);
    match i {
        InstructionState::InitBallot { chairperson, proposals } => {
            let head = seq![0u8] + chairperson + spec_u32_to_le_bytes(proposals.len() as u32);
            assert(head.len() == 37);
            assert(s =~= head + names_bytes(proposals) + Seq::<u8>::empty());
            lemma_parse_names_bytes(head, proposals, Seq::empty(), proposals.len());
            assert(proposals.subrange(0, proposals.len() as int) =~= proposals);
            assert(field(s, 33, 4) =~= spec_u32_to_le_bytes(proposals.len() as u32));
            assert(field(s, 1, 32) =~= chairperson);
        },
        InstructionState::AddVoter { voter, voter_bump_seed } => {
            assert(field(s, 1, 32) =~= voter);
        },
        InstructionState::DelegateVote => {},
        InstructionState::Vote { vote } => {},
    }
}

} // verus!
