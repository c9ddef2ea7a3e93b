//! What the programs see of the ledger: accounts, instructions, errors and
//! derived addresses.

use vstd::prelude::*;
use vstd::string::StringSliceAdditionalSpecFns;
use crate::address::Address;

verus! {

/// An account as a program sees it during one instruction.
#[derive(Clone, Debug, PartialEq, Eq)]
pub struct Account {
    /// Where the account lives.
    pub key: Address,
    /// The program that may change the account's data.
    pub owner: Address,
    /// Whether the holder of `key` has signed the transaction.
    pub is_signer: bool,
    /// The native value that the account holds.
    pub lamports: u64,
    /// The account's data.
    pub data: Vec<u8>,
}

/// The reasons for which the ledger, or a program on its behalf, refuses an
/// instruction.
#[derive(Clone, Copy, Debug, PartialEq, Eq, Structural)]
pub enum ProgramError {
    /// A program's own error, by its number.
    Custom(u32),
    InvalidArgument,
    InvalidInstructionData,
    InvalidAccountData,
    AccountDataTooSmall,
    InsufficientFunds,
    IncorrectProgramId,
    MissingRequiredSignature,
    AccountAlreadyInitialized,
    UninitializedAccount,
    NotEnoughAccountKeys,
    AccountBorrowFailed,
    MaxSeedLengthExceeded,
    InvalidSeeds,
    BorshIoError,
    AccountNotRentExempt,
    UnsupportedSysvar,
    IllegalOwner,
    /// An amount left the range of the integer that holds it.
    ArithmeticOverflow,
}

/// A rule on the accounts of an instruction that they do not meet.
#[derive(Clone, Copy, Debug, PartialEq, Eq, Structural)]
pub enum ConstraintError {
    /// An account does not name the one that it has to belong to.
    HasOne,
    /// A rule of the program on its accounts does not hold.
    Raw,
}

/// How an instruction refers to one account.
#[derive(Clone, Copy, Debug, PartialEq, Eq)]
pub struct AccountMeta {
    pub pubkey: Address,
    /// Whether the transaction must carry a signature for `pubkey`.
    pub is_signer: bool,
    /// Whether the program may change the account.
    pub is_writable: bool,
}

impl AccountMeta {
    /// An account that the program may change.
    pub fn new(pubkey: Address, is_signer: bool) -> (r: Self)
        ensures
            r == (AccountMeta { pubkey, is_signer, is_writable: true }),
    {
        AccountMeta { pubkey, is_signer, is_writable: true }
    }

    /// An account that the program only reads.
    pub fn new_readonly(pubkey: Address, is_signer: bool) -> (r: Self)
        ensures
            r == (AccountMeta { pubkey, is_signer, is_writable: false }),
    {
        AccountMeta { pubkey, is_signer, is_writable: false }
    }
}

/// A call of a program: which program, on which accounts, with which data.
#[derive(Clone, Debug, PartialEq, Eq)]
pub struct Instruction {
    pub program_id: Address,
    pub accounts: Vec<AccountMeta>,
    pub data: Vec<u8>,
}

/// The address of the system program, which owns every account that no other
/// program has claimed: all zero.
pub fn system_program_id() -> (r: Address)
    ensures
        r == Address::nobody(),
        r@ == Address::zero(),
{
    Address::default()
}

/// The program address that the ledger derives from `seeds` for the program
/// `program_id`, with the bump seed that makes it one; `None` where the seeds
/// admit no such address.
pub uninterp spec fn program_address(seeds: Seq<Seq<u8>>, program_id: Seq<u8>) -> Option<(Seq<u8>, u8)>;

/// The seeds of a derivation, as plain values.
pub open spec fn seeds_view(seeds: Vec<Vec<u8>>) -> Seq<Seq<u8>> {
    seeds@.map_values(|seed: Vec<u8>| seed@)
}

/// A derived address and its bump seed, as plain values.
pub open spec fn derived_view(found: Option<(Address, u8)>) -> Option<(Seq<u8>, u8)> {
    match found {
        Some((key, bump)) => Some((key@, bump)),
        None => None,
    }
}

/// Derives a program address with `Pubkey::try_find_program_address` of
/// `solana_program`.
///
/// Nothing is proved of the derivation. The contract only gives the result
/// its name: it depends on the seeds and the program's address alone.
#[verifier::external_body]
pub(crate) fn try_find_program_address(seeds: &Vec<Vec<u8>>, program_id: &Address) -> (r: Option<(Address, u8)>)
    ensures
        derived_view(r) == program_address(seeds_view(*seeds), program_id@),
{
    let parts: Vec<&[u8]> = seeds.iter().map(|s| s.as_slice()).collect();
    let id = solana_program::pubkey::Pubkey::new_from_array(program_id.bytes);
    solana_program::pubkey::Pubkey::try_find_program_address(&parts, &id)
        .map(|(key, bump)| (Address::new(key.to_bytes()), bump))
}

/// The bytes that end the address of no program: the letters of
/// "ProgramDerivedAddress". The ledger appends them when it derives a program
/// address, and refuses an owner whose address ends with them.
pub open spec fn derived_marker() -> Seq<u8> {
    seq![
        80u8, 114u8, 111u8, 103u8, 114u8, 97u8, 109u8, 68u8, 101u8, 114u8, 105u8, 118u8, 101u8,
        100u8, 65u8, 100u8, 100u8, 114u8, 101u8, 115u8, 115u8,
    ]
}

/// Whether an address can be derived from `seed` for the program at
/// `owner`: the seed has at most 32 bytes, and the owner's last 21 bytes are
/// not the marker.
pub open spec fn seedable(seed: Seq<u8>, owner: Seq<u8>) -> bool {
    seed.len() <= 32 && owner.subrange(11, 32) != derived_marker()
}

/// Derives an address from a base address, a seed and an owner with
/// `Pubkey::create_with_seed` of `solana_program`.
///
/// There is an address exactly when the seed has at most 32 bytes and the
/// owner's last 21 bytes are not the marker of derived addresses. The
/// address is then the digest of the base, the seed and the owner, in this
/// order.
#[verifier::external_body]
pub(crate) fn create_with_seed(base: &Address, seed: &str, owner: &Address) -> (r: Option<Address>)
    ensures
        match r {
            Some(key) => seedable(seed.spec_bytes(), owner@) && key@ == digest(
                seq![base@, seed.spec_bytes(), owner@],
            ),
            None => !seedable(seed.spec_bytes(), owner@),
        },
{
    let base = solana_program::pubkey::Pubkey::new_from_array(base.bytes);
    let owner = solana_program::pubkey::Pubkey::new_from_array(owner.bytes);
    solana_program::pubkey::Pubkey::create_with_seed(&base, seed, &owner)
        .ok()
        .map(|key| Address::new(key.to_bytes()))
}

/// The SHA-256 digest of the bytes of `parts`, one part after the other.
pub uninterp spec fn digest(parts: Seq<Seq<u8>>) -> Seq<u8>;

/// Hashes `parts` with `hashv` of `solana_program`: 32 bytes that depend on
/// the parts alone. Nothing more is proved of them.
#[verifier::external_body]
pub(crate) fn hashv(parts: &Vec<Vec<u8>>) -> (r: [u8; 32])
    ensures
        r@ == digest(seeds_view(*parts)),
{
    let slices: Vec<&[u8]> = parts.iter().map(|part| part.as_slice()).collect();
    solana_program::hash::hashv(&slices).to_bytes()
}

/// The text in which the ledger shows the address with the bytes `bytes`.
pub uninterp spec fn shown(bytes: Seq<u8>) -> Seq<char>;

/// Writes an address as text, as `Pubkey` of `solana_program` displays
/// itself. The text depends on the address alone; nothing more is proved of
/// it.
#[verifier::external_body]
pub(crate) fn show(address: &Address) -> (r: String)
    ensures
        r@ == shown(address@),
{
    solana_program::pubkey::Pubkey::new_from_array(address.bytes).to_string()
}

} // verus!
