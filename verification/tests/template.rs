use borsh::BorshSerialize;
use chain_programs::address::Address;
use chain_programs::ledger::{Account, AccountMeta, ProgramError};
use chain_programs::template::error::{CustomError, CustomProgramResult};
use chain_programs::template::instruction::{sample_create, CustomInstruction};
use chain_programs::template::processor::{CreateRecord, Processor, MINIMUM_LAMPORTS};
use chain_programs::template::state::{
    get_seeds_and_key, record_address, record_seed_of, seeds_and_key, CustomHeader, HASH_PREFIX,
};
use solana_program::native_token::LAMPORTS_PER_SOL;
use solana_program::pubkey::Pubkey;

fn addr(tag: u8) -> Address {
    let mut bytes = [0u8; 32];
    bytes[0] = tag;
    bytes[31] = 1;
    Address::new(bytes)
}

fn program() -> Address {
    addr(200)
}

fn plain(key: Address, lamports: u64, signs: bool) -> Account {
    Account { key, owner: Address::default(), is_signer: signs, lamports, data: Vec::new() }
}

/// The accounts in the order in which the processor reads them: the system
/// program, the payer, the record, the owner.
fn accounts_for(owner: Address, payer_holds: u64) -> Vec<Account> {
    let (record, _) = get_seeds_and_key(&program(), &owner).unwrap();
    vec![
        plain(Address::default(), 1, false),
        plain(addr(1), payer_holds, true),
        plain(record, 0, false),
        plain(owner, 0, false),
    ]
}

#[test]
fn test_transaction() {
    let program_id = program();
    let payer = addr(1);
    let (record_account_key, seeds) = get_seeds_and_key(&program_id, &payer).unwrap();

    let instruction = sample_create(
        program_id,
        CustomInstruction::SampleCreate { lamports: LAMPORTS_PER_SOL / 10 },
        payer,
        record_account_key,
        payer,
    )
    .unwrap();
    assert_eq!(instruction.program_id, program_id);
    assert_eq!(
        instruction.accounts,
        vec![
            AccountMeta::new(payer, true),
            AccountMeta::new(record_account_key, false),
            AccountMeta::new_readonly(payer, false),
            AccountMeta::new_readonly(Address::default(), false),
        ]
    );

    let mut accounts = vec![
        plain(Address::default(), 1, false),
        plain(payer, LAMPORTS_PER_SOL, true),
        plain(record_account_key, 0, false),
        plain(payer, LAMPORTS_PER_SOL, false),
    ];
    let r = Processor::process_instruction(&program_id, &mut accounts, &instruction.data);
    assert_eq!(
        r,
        Ok(Some(CreateRecord {
            payer,
            record: record_account_key,
            lamports: LAMPORTS_PER_SOL / 10,
            space: 32,
            owner: program_id,
            signer_seeds: seeds,
        }))
    );
    assert_eq!(accounts[2].data, payer.to_bytes().to_vec());
    assert_eq!(accounts[2].owner, program_id);
    assert_eq!(accounts[2].lamports, LAMPORTS_PER_SOL / 10);
    assert_eq!(accounts[1].lamports, LAMPORTS_PER_SOL - LAMPORTS_PER_SOL / 10);
}

#[test]
fn record_address_is_derived_from_the_hashed_owner() {
    let program_id = program();
    let owner = addr(7);
    let shown = Pubkey::new_from_array(owner.to_bytes()).to_string();
    let text = format!("Custom Service{}", shown);
    let hash = solana_program::hash::hashv(&[text.as_bytes()]).to_bytes();
    assert_eq!(record_seed_of(&owner), hash);
    assert_ne!(record_seed_of(&owner), owner.to_bytes());
    assert_ne!(record_seed_of(&addr(8)), hash);

    let (expected, bump) =
        Pubkey::find_program_address(&[&hash], &Pubkey::new_from_array(program_id.to_bytes()));
    assert_eq!(
        record_address(&program_id, &hash),
        Some((Address::new(expected.to_bytes()), bump))
    );
    let (key, seeds) = get_seeds_and_key(&program_id, &owner).unwrap();
    assert_eq!(key.to_bytes(), expected.to_bytes());
    let mut expected_seeds = hash.to_vec();
    expected_seeds.push(bump);
    assert_eq!(seeds, expected_seeds);
    assert_eq!(seeds.len(), 33);
    assert_eq!(HASH_PREFIX, "Custom Service");

    assert_eq!(seeds_and_key([3u8; 32], None), None);
    let mut with_bump = vec![3u8; 32];
    with_bump.push(9);
    assert_eq!(seeds_and_key([3u8; 32], Some((addr(4), 9))), Some((addr(4), with_bump)));
}

#[test]
fn sample_create_refusals() {
    let p = program();
    let owner = addr(7);
    let run = |accounts: &mut Vec<Account>, lamports: u64| {
        let before = accounts.clone();
        let r = Processor::process_sample_create(&p, accounts, lamports);
        if r.is_err() {
            assert_eq!(*accounts, before);
        }
        r
    };
    assert_eq!(MINIMUM_LAMPORTS, LAMPORTS_PER_SOL / 1000);
    assert_eq!(
        run(&mut vec![], MINIMUM_LAMPORTS - 1),
        Err(ProgramError::Custom(0))
    );
    assert_eq!(run(&mut vec![], MINIMUM_LAMPORTS), Err(ProgramError::NotEnoughAccountKeys));
    let mut accounts = accounts_for(owner, 5_000_000);
    accounts.truncate(3);
    assert_eq!(run(&mut accounts, MINIMUM_LAMPORTS), Err(ProgramError::NotEnoughAccountKeys));

    let mut accounts = accounts_for(owner, 5_000_000);
    accounts[2].key = addr(9);
    assert_eq!(run(&mut accounts, MINIMUM_LAMPORTS), Err(ProgramError::InvalidArgument));

    let mut accounts = accounts_for(owner, 5_000_000);
    accounts[2].data = vec![0; 31];
    assert_eq!(run(&mut accounts, MINIMUM_LAMPORTS), Err(ProgramError::InvalidAccountData));
    accounts[2].data = addr(3).to_bytes().to_vec();
    assert_eq!(run(&mut accounts, MINIMUM_LAMPORTS), Err(ProgramError::InvalidArgument));

    let nobody = Address::default();
    let mut accounts = accounts_for(nobody, 5_000_000);
    assert_eq!(run(&mut accounts, MINIMUM_LAMPORTS), Err(ProgramError::InvalidArgument));

    let mut accounts = accounts_for(owner, MINIMUM_LAMPORTS - 1);
    assert_eq!(run(&mut accounts, MINIMUM_LAMPORTS), Err(ProgramError::InsufficientFunds));
    let mut accounts = accounts_for(owner, 5_000_000);
    accounts[2].lamports = u64::MAX;
    assert_eq!(run(&mut accounts, MINIMUM_LAMPORTS), Err(ProgramError::ArithmeticOverflow));

    // an account that exists and names nobody is written without being funded
    let mut accounts = accounts_for(owner, 5_000_000);
    accounts[2].data = vec![0; 40];
    accounts[2].data[35] = 4;
    assert_eq!(run(&mut accounts, MINIMUM_LAMPORTS), Ok(None));
    assert_eq!(&accounts[2].data[..32], &owner.to_bytes()[..]);
    assert_eq!(&accounts[2].data[32..], &[0, 0, 0, 4, 0, 0, 0, 0]);
    assert_eq!(accounts[1].lamports, 5_000_000);
    assert_eq!(accounts[2].lamports, 0);
    // and then it has an owner
    assert_eq!(run(&mut accounts, MINIMUM_LAMPORTS), Err(ProgramError::InvalidArgument));
}

#[test]
fn sample_create_at_uses_what_it_is_given() {
    let p = program();
    let mut accounts = vec![
        plain(Address::default(), 1, false),
        plain(addr(1), 2_000_000, true),
        plain(addr(5), 3, false),
        plain(addr(7), 0, false),
    ];
    assert_eq!(
        Processor::sample_create_at(&p, &mut accounts, [1u8; 32], None, MINIMUM_LAMPORTS),
        Err(ProgramError::InvalidArgument)
    );
    assert_eq!(
        Processor::sample_create_at(&p, &mut accounts, [1u8; 32], Some((addr(6), 250)), MINIMUM_LAMPORTS),
        Err(ProgramError::InvalidArgument)
    );
    let r = Processor::sample_create_at(
        &p,
        &mut accounts,
        [1u8; 32],
        Some((addr(5), 250)),
        MINIMUM_LAMPORTS,
    );
    let mut seeds = vec![1u8; 32];
    seeds.push(250);
    assert_eq!(
        r,
        Ok(Some(CreateRecord {
            payer: addr(1),
            record: addr(5),
            lamports: MINIMUM_LAMPORTS,
            space: 32,
            owner: p,
            signer_seeds: seeds,
        }))
    );
    assert_eq!(accounts[2].lamports, 3 + MINIMUM_LAMPORTS);
    assert_eq!(accounts[1].lamports, 1_000_000);
    assert_eq!(accounts[2].data, addr(7).to_bytes().to_vec());
}

#[test]
fn instruction_layout_of_the_record_program() {
    let i = CustomInstruction::SampleCreate { lamports: 0x0102030405060708 };
    let bytes = i.try_to_vec();
    assert_eq!(bytes, vec![0, 8, 7, 6, 5, 4, 3, 2, 1]);
    let mut reference = vec![0u8];
    reference.extend(0x0102030405060708u64.try_to_vec().unwrap());
    assert_eq!(bytes, reference);
    assert_eq!(CustomInstruction::try_from_slice(&bytes), Some(i));
    assert_eq!(CustomInstruction::try_from_slice(&bytes[..8]), None);
    assert_eq!(CustomInstruction::try_from_slice(&[1, 0, 0, 0, 0, 0, 0, 0, 0]), None);
    assert_eq!(CustomInstruction::try_from_slice(&[0; 10]), None);
    assert_eq!(
        Processor::process_instruction(&program(), &mut vec![], &[7]),
        Err(ProgramError::InvalidInstructionData)
    );
    assert_eq!(
        Processor::process_instruction(&program(), &mut vec![], &[0; 9]),
        Err(ProgramError::Custom(0))
    );
}

#[test]
fn header_layout_and_error() {
    let header = CustomHeader { owner: addr(4) };
    let mut data = vec![9u8; 34];
    header.pack_into_slice(&mut data);
    assert_eq!(&data[..32], &addr(4).to_bytes()[..]);
    assert_eq!(&data[32..], &[9, 9]);
    assert_eq!(CustomHeader::unpack_from_slice(&data), Ok(header));
    assert_eq!(
        CustomHeader::unpack_from_slice(&data[..31]),
        Err(ProgramError::InvalidAccountData)
    );
    assert_eq!(CustomHeader::LEN, 32);
    assert!(!header.is_initialized());
    assert!(CustomHeader { owner: Address::default() }.is_initialized());

    let e = CustomError::TooFewLamports;
    assert_eq!(e.code(), 0);
    assert_eq!(CustomError::from_u32(0), Some(e));
    assert_eq!(CustomError::from_u32(1), None);
    assert_eq!(e.to_string(), "Too few lamports for record creation");
    assert_eq!(e.print(), "Error: Too few lamports for record creation");
    assert_eq!(CustomError::type_of(), "CustomError");
    assert_eq!(ProgramError::from(e), ProgramError::Custom(0));
    let r: CustomProgramResult = Err(e);
    assert_eq!(r, Err(CustomError::TooFewLamports));
}
