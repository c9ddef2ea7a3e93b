//! The instruction that the record program takes, its layout in instruction
//! data, and how a client builds it.

use vstd::prelude::*;
use vstd::bytes::spec_u64_to_le_bytes;
use crate::address::Address;
use crate::ledger::{system_program_id, AccountMeta, Instruction, ProgramError};
use crate::wire::{get_u64, get_u8, put_u64, u64_at};

verus! {

/// What the record program can be asked to do.
#[derive(Clone, Copy, Debug, PartialEq, Eq, Structural)]
pub enum CustomInstruction {
    /// Create an empty record.
    ///
    /// Accounts, as the builder lists them: the funding account, which
    /// signs; the record to create; the owner to write into it; the system
    /// program.
    SampleCreate {
        /// The value to fund the record with.
        lamports: u64,
    },
}

/// The layout of the instruction: a zero byte, then the amount.
pub open spec fn instruction_bytes(i: CustomInstruction) -> Seq<u8> {
    match i {
        CustomInstruction::SampleCreate { lamports } => seq![0u8] + spec_u64_to_le_bytes(lamports),
    }
}

/// The instruction that `s` holds, if it holds one and nothing else.
pub open spec fn parse_instruction(s: Seq<u8>) -> Option<CustomInstruction> {
    if s.len() == 9 && s[0] == 0 {
        Some(CustomInstruction::SampleCreate { lamports: u64_at(s, 1) })
    } else {
        None
    }
}

impl CustomInstruction {
    /// Reads an instruction from `data`, which must hold it and nothing
    /// else.
    pub fn try_from_slice(data: &[u8]) -> (r: Option<CustomInstruction>)
        ensures
            r == parse_instruction(data@),
    {
        if data.len() != 9 {
            return None;
        }
        match get_u8(data, 0) {
            Some(0) => {},
            _ => {
                return None;
            },
        }
        match get_u64(data, 1) {
            Some(lamports) => Some(CustomInstruction::SampleCreate { lamports }),
            None => None,
        }
    }

    /// Lays the instruction out in bytes.
    pub fn try_to_vec(&self) -> (r: Vec<u8>)
        ensures
            r@ == instruction_bytes(*self),
    {
        let mut out: Vec<u8> = Vec::new();
        match self {
            CustomInstruction::SampleCreate { lamports } => {
                out.push(0);
                put_u64(&mut out, *lamports);
            },
        }
        out
    }

    /// An instruction that has been laid out can be read again.
    pub proof fn lemma_parse_bytes(i: CustomInstruction)
        ensures
            parse_instruction(instruction_bytes(i)) == Some(i),
    {
        vstd::bytes::lemma_auto_spec_u64_to_from_le_bytes();
        let s = instruction_bytes(i);
        assert(s.subrange(1, 9) =~= spec_u64_to_le_bytes(i->lamports));
    }
}

/// Builds the instruction that creates a record: the payer signs and pays,
/// the record is written, its owner and the system program are read.
pub fn sample_create(
    program_id: Address,
    instruction_data: CustomInstruction,
    payer_key: Address,
    record_account_key: Address,
    record_owner_key: Address,
) -> (r: Result<Instruction, ProgramError>)
    ensures
        r matches Ok(instruction) && instruction.program_id == program_id
            && instruction.data@ == instruction_bytes(instruction_data) && instruction.accounts@
            == seq![
            AccountMeta { pubkey: payer_key, is_signer: true, is_writable: true },
            AccountMeta { pubkey: record_account_key, is_signer: false, is_writable: true },
            AccountMeta { pubkey: record_owner_key, is_signer: false, is_writable: false },
            AccountMeta { pubkey: Address::nobody(), is_signer: false, is_writable: false },
        ],
{
    let data = instruction_data.try_to_vec();
    let mut accounts: Vec<AccountMeta> = Vec::new();
    accounts.push(AccountMeta::new(payer_key, true));
    accounts.push(AccountMeta::new(record_account_key, false));
    accounts.push(AccountMeta::new_readonly(record_owner_key, false));
    accounts.push(AccountMeta::new_readonly(system_program_id(), false));
    assert(accounts@ =~= seq![
        AccountMeta { pubkey: payer_key, is_signer: true, is_writable: true },
        AccountMeta { pubkey: record_account_key, is_signer: false, is_writable: true },
        AccountMeta { pubkey: record_owner_key, is_signer: false, is_writable: false },
        AccountMeta { pubkey: Address::nobody(), is_signer: false, is_writable: false },
    ]);
    Ok(Instruction { program_id, accounts, data })
}

} // verus!
