//! The instructions of the record program.

use vstd::prelude::*;
use crate::address::Address;
use crate::ledger::{Account, ProgramError};
use crate::template::error::CustomError;
use crate::template::instruction::{parse_instruction, CustomInstruction};
use crate::ledger::derived_view;
use crate::template::state::{
    parse_header, record_address, record_seed, record_seed_of, seeds_and_key, CustomHeader,
};
use crate::ledger::program_address;
use crate::voting::processor::{copy_of, restore, same_but_lamports, store};

verus! {

/// The least value that a record can be created with: a thousandth of the
/// unit of a thousand million.
pub const MINIMUM_LAMPORTS: u64 = 1_000_000;

/// What the system program is asked to do for a new record: to move
/// `lamports` from `payer` to `record`, to give `record` `space` bytes of
/// data, and to hand it to `owner`, the last two signed for with the seeds.
#[derive(Clone, Debug, PartialEq, Eq)]
pub struct CreateRecord {
    pub payer: Address,
    pub record: Address,
    pub lamports: u64,
    pub space: u64,
    pub owner: Address,
    /// The seeds with which the program signs, in pieces of at most 32
    /// bytes.
    pub signer_seeds: Vec<u8>,
}

/// Whether creating a record has to make the record's account, or why the
/// record is refused. `derived` is the address of the owner's record with
/// its bump seed.
pub open spec fn sample_create_result(
    accounts: Seq<Account>,
    derived: Option<(Seq<u8>, u8)>,
    lamports: u64,
) -> Result<bool, ProgramError> {
    if lamports < MINIMUM_LAMPORTS {
        Err(ProgramError::Custom(CustomError::TooFewLamports.number()))
    } else if accounts.len() < 4 {
        Err(ProgramError::NotEnoughAccountKeys)
    } else if !(derived matches Some((key, _)) && key == accounts[2].key@) {
        Err(ProgramError::InvalidArgument)
    } else if accounts[2].data@.len() > 0 && parse_header(accounts[2].data@) is None {
        Err(ProgramError::InvalidAccountData)
    } else if accounts[2].data@.len() > 0 && parse_header(accounts[2].data@) != Some(
        Address::zero(),
    ) {
        Err(ProgramError::InvalidArgument)
    } else if accounts[3].key@ == Address::zero() {
        Err(ProgramError::InvalidArgument)
    } else if accounts[2].data@.len() > 0 {
        Ok(false)
    } else if accounts[1].lamports < lamports {
        Err(ProgramError::InsufficientFunds)
    } else if accounts[2].lamports + lamports > u64::MAX {
        Err(ProgramError::ArithmeticOverflow)
    } else {
        Ok(true)
    }
}

/// What creating a record leaves. `seed` is the seed of the owner's record
/// and `derived` the address that belongs to it.
pub open spec fn sample_create_post(
    program_id: Address,
    before: Seq<Account>,
    after: Seq<Account>,
    r: Result<Option<CreateRecord>, ProgramError>,
    seed: Seq<u8>,
    derived: Option<(Seq<u8>, u8)>,
    lamports: u64,
) -> bool {
    match sample_create_result(before, derived, lamports) {
        Err(e) => r == Err::<Option<CreateRecord>, ProgramError>(e) && after == before,
        Ok(false) => {
            &&& r == Ok::<Option<CreateRecord>, ProgramError>(None)
            &&& after.len() == before.len()
            &&& after[2].key == before[2].key
            &&& after[2].owner == before[2].owner
            &&& after[2].is_signer == before[2].is_signer
            &&& after[2].lamports == before[2].lamports
            &&& after[2].data@ == before[3].key@ + before[2].data@.subrange(
                32,
                before[2].data@.len() as int,
            )
            &&& forall|i: int| 0 <= i < before.len() && i != 2 ==> after[i] == before[i]
        },
        Ok(true) => {
            &&& r matches Ok(Some(action)) && action.payer == before[1].key && action.record
                == before[2].key && action.lamports == lamports && action.space
                == CustomHeader::LEN && action.owner == program_id && action.signer_seeds@
                == seed.push((derived->0).1)
            &&& after.len() == before.len()
            &&& same_but_lamports(before[1], after[1], before[1].lamports - lamports)
            &&& after[2].key == before[2].key
            &&& after[2].is_signer == before[2].is_signer
            &&& after[2].owner == program_id
            &&& after[2].lamports == before[2].lamports + lamports
            &&& after[2].data@ == before[3].key@
            &&& forall|i: int|
                0 <= i < before.len() && i != 1 && i != 2 ==> after[i] == before[i]
        },
    }
}

/// What an instruction leaves, given the data that says which it is.
pub open spec fn instruction_post(
    program_id: Address,
    before: Seq<Account>,
    after: Seq<Account>,
    r: Result<Option<CreateRecord>, ProgramError>,
    instruction_data: Seq<u8>,
) -> bool {
    match parse_instruction(instruction_data) {
        None => r == Err::<Option<CreateRecord>, ProgramError>(
            ProgramError::InvalidInstructionData,
        ) && after == before,
        Some(CustomInstruction::SampleCreate { lamports }) => sample_created(
            program_id,
            before,
            after,
            r,
            lamports,
        ),
    }
}

/// What creating a record leaves, with the record's address derived from
/// its owner.
pub open spec fn sample_created(
    program_id: Address,
    before: Seq<Account>,
    after: Seq<Account>,
    r: Result<Option<CreateRecord>, ProgramError>,
    lamports: u64,
) -> bool {
    sample_create_post(
        program_id,
        before,
        after,
        r,
        record_seed(before[3].key@),
        program_address(seq![record_seed(before[3].key@)], program_id@),
        lamports,
    )
}

/// The instructions of the record program.
pub struct Processor {}

impl Processor {
    /// Creates the record of an owner, funded with `lamports`.
    ///
    /// Accounts, as they are read: the system program; the payer; the
    /// record; the owner.
    ///
    /// The refusals, in the order in which they are tested:
    /// `TooFewLamports` below a million; `NotEnoughAccountKeys`;
    /// `InvalidArgument` where the record is not at the address that
    /// belongs to the owner; for a record that holds data,
    /// `InvalidAccountData` where it holds no header and `InvalidArgument`
    /// where the header names an owner; `InvalidArgument` where the owner is
    /// the zero address; and for a record without data `InsufficientFunds`
    /// where the payer cannot fund it and `ArithmeticOverflow` where it
    /// cannot hold more.
    ///
    /// A record without data has to be made first. The result then says what
    /// to ask of the system program, and the accounts are left as that and
    /// the writing of the header leave them. Either way the record's data
    /// starts with its owner.
    pub fn process_sample_create(program_id: &Address, accounts: &mut Vec<Account>, lamports: u64)
        -> (r: Result<Option<CreateRecord>, ProgramError>)
        ensures
            sample_created(*program_id, old(accounts)@, final(accounts)@, r, lamports),
    {
        if lamports < MINIMUM_LAMPORTS {
            return Err(ProgramError::from(CustomError::TooFewLamports));
        }
        if accounts.len() < 4 {
            return Err(ProgramError::NotEnoughAccountKeys);
        }
        let seed = record_seed_of(&accounts[3].key);
        let derived = record_address(program_id, &seed);
        Processor::sample_create_at(program_id, accounts, seed, derived, lamports)
    }

    /// Creates the record of an owner as
    /// [`Processor::process_sample_create`] does, with the record's address
    /// seed given as `seed` and the address that belongs to it as `derived`.
    pub fn sample_create_at(
        program_id: &Address,
        accounts: &mut Vec<Account>,
        seed: [u8; 32],
        derived: Option<(Address, u8)>,
        lamports: u64,
    ) -> (r: Result<Option<CreateRecord>, ProgramError>)
        ensures
            sample_create_post(
                *program_id,
                old(accounts)@,
                final(accounts)@,
                r,
                seed@,
                derived_view(derived),
                lamports,
            ),
    {
        if lamports < MINIMUM_LAMPORTS {
            return Err(ProgramError::from(CustomError::TooFewLamports));
        }
        if accounts.len() < 4 {
            return Err(ProgramError::NotEnoughAccountKeys);
        }
        let (record_account_key, seeds) = match seeds_and_key(seed, derived) {
            Some(found) => found,
            None => {
                return Err(ProgramError::InvalidArgument);
            },
        };
        if record_account_key != accounts[2].key {
            return Err(ProgramError::InvalidArgument);
        }
        if accounts[2].data.len() > 0 {
            let name_record_header = match CustomHeader::unpack_from_slice(
                accounts[2].data.as_slice(),
            ) {
                Ok(header) => header,
                Err(e) => {
                    return Err(e);
                },
            };
            if !name_record_header.owner.is_default() {
                return Err(ProgramError::InvalidArgument);
            }
        }
        if accounts[3].key.is_default() {
            return Err(ProgramError::InvalidArgument);
        }
        let name_state = CustomHeader { owner: accounts[3].key };
        if accounts[2].data.len() == 0 {
            if accounts[1].lamports < lamports {
                return Err(ProgramError::InsufficientFunds);
            }
            let funded: u64 = match accounts[2].lamports.checked_add(lamports) {
                Some(funded) => funded,
                None => {
                    return Err(ProgramError::ArithmeticOverflow);
                },
            };
            let action = CreateRecord {
                payer: accounts[1].key,
                record: accounts[2].key,
                lamports,
                space: 32,
                owner: *program_id,
                signer_seeds: seeds,
            };
            let mut data: Vec<u8> = Vec::new();
            let mut i: usize = 0;
            while i < 32
                invariant
                    i <= 32,
                    data.len() == i,
                decreases 32 - i,
            {
                data.push(0);
                i += 1;
            }
            name_state.pack_into_slice(&mut data);
            assert(data@ =~= accounts[3].key@);
            let payer_owner = accounts[1].owner;
            let payer_lamports: u64 = accounts[1].lamports - lamports;
            let payer_data = copy_of(&accounts[1].data);
            restore(accounts, 1, payer_owner, payer_lamports, payer_data);
            restore(accounts, 2, *program_id, funded, data);
            Ok(Some(action))
        } else {
            let mut data = copy_of(&accounts[2].data);
            name_state.pack_into_slice(&mut data);
            store(accounts, 2, data);
            Ok(None)
        }
    }

    /// Reads the instruction from `instruction_data` and carries it out on
    /// `accounts`.
    ///
    /// Fails with `InvalidInstructionData` where the data holds no
    /// instruction. Otherwise the outcome is that of
    /// [`Processor::process_sample_create`].
    pub fn process_instruction(
        program_id: &Address,
        accounts: &mut Vec<Account>,
        instruction_data: &[u8],
    ) -> (r: Result<Option<CreateRecord>, ProgramError>)
        ensures
            instruction_post(*program_id, old(accounts)@, final(accounts)@, r, instruction_data@),
    {
        match CustomInstruction::try_from_slice(instruction_data) {
            None => Err(ProgramError::InvalidInstructionData),
            Some(CustomInstruction::SampleCreate { lamports }) => {
                Processor::process_sample_create(program_id, accounts, lamports)
            },
        }
    }
}

} // verus!
