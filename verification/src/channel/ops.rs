//! The operations on a channel.
//!
//! Each takes the accounts it works on as a context of plain values and
//! changes them in place. An operation that is refused leaves its context as
//! it was. The account that a context names as the caller is taken to have
//! signed: the ledger establishes that before it calls.

use vstd::prelude::*;
use crate::address::Address;
use crate::channel::laws::{
    apply, lemma_step_keeps_solvency, lemma_step_keeps_validity, Operation,
};
use crate::channel::model::{
    deposit_refusal, excess, exit_outcome, exit_refusal, open_refusal, opened, reclaim_refusal,
    withdraw_outcome, withdraw_refusal, withdrawn, Custody, Failure,
};
use crate::channel::rules::{
    calculate_excess_balance, calculate_total_balance_needed, find_user_index, parties,
    total_needed, transfer_from_treasury, verify_balances, verify_user,
};
use crate::channel::state::{Channel, ChannelError, Pending};
use crate::ledger::{
    derived_view, program_address, seeds_view, try_find_program_address, Account, ProgramError,
};

verus! {

/// The seed from which the address of a channel record is derived.
pub const CHANNEL_SEED: [u8; 7] = [99, 104, 97, 110, 110, 101, 108];

/// The seed from which the address of a treasury is derived.
pub const TREASURY_SEED: [u8; 8] = [116, 114, 101, 97, 115, 117, 114, 121];

/// What the opening of a channel takes from the ledger besides its
/// accounts.
#[derive(Clone, Copy, Debug, PartialEq, Eq)]
pub struct Substrate {
    /// The address of the channel program itself.
    pub program_id: Address,
    /// The present time.
    pub now: u64,
    /// The least that the ledger lets an account without data hold. The
    /// treasury is funded with it when the channel is opened, beside what the
    /// parties are owed.
    pub minimum_reserve: u64,
}

/// The accounts of [`initialize`].
#[derive(Clone, Debug, PartialEq, Eq)]
pub struct Initialize {
    /// The record to fill.
    pub channel: Channel,
    /// The treasury to fund.
    pub treasury: Account,
    /// Who pays, and who may later take back the excess.
    pub authority: Account,
    /// The bump seed of the record's address.
    pub bump: u8,
}

/// The accounts of [`challenge_exit`].
#[derive(Clone, Debug, PartialEq, Eq)]
pub struct ChallengeExit {
    pub channel: Channel,
    pub treasury: Account,
    /// The party that proposes.
    pub user: Account,
}

/// The accounts of [`withdraw`].
#[derive(Clone, Debug, PartialEq, Eq)]
pub struct Withdraw {
    pub channel: Channel,
    pub treasury: Account,
    /// The party that withdraws.
    pub user: Account,
}

/// The accounts of [`deposit_treasury`].
#[derive(Clone, Debug, PartialEq, Eq)]
pub struct DepositTreasury {
    pub channel: Channel,
    pub treasury: Account,
    /// Who pays; it need not be a party.
    pub payer: Account,
}

/// The accounts of [`withdraw_excess_treasury_authority`].
#[derive(Clone, Debug, PartialEq, Eq)]
pub struct WithdrawExcessTreasuryAuthority {
    pub channel: Channel,
    pub treasury: Account,
    /// The caller, who has to be the channel's authority.
    pub authority: Account,
}

impl ChallengeExit {
    /// The channel and what its treasury holds.
    pub open spec fn custody(self) -> Custody {
        Custody { channel: self.channel@, treasury: self.treasury.lamports }
    }
}

impl Withdraw {
    /// The channel and what its treasury holds.
    pub open spec fn custody(self) -> Custody {
        Custody { channel: self.channel@, treasury: self.treasury.lamports }
    }
}

impl DepositTreasury {
    /// The channel and what its treasury holds.
    pub open spec fn custody(self) -> Custody {
        Custody { channel: self.channel@, treasury: self.treasury.lamports }
    }
}

impl WithdrawExcessTreasuryAuthority {
    /// The channel and what its treasury holds.
    pub open spec fn custody(self) -> Custody {
        Custody { channel: self.channel@, treasury: self.treasury.lamports }
    }
}

/// The address of the treasury that belongs to the program `program_id`,
/// with its bump seed; `None` where the program has none.
pub fn treasury_address(program_id: &Address) -> (r: Option<(Address, u8)>)
    ensures
        derived_view(r) == program_address(seq![TREASURY_SEED@], program_id@),
{
    let mut seed: Vec<u8> = Vec::new();
    let mut i: usize = 0;
    while i < 8
        invariant
            i <= 8,
            seed@ == TREASURY_SEED@.subrange(0, i as int),
        decreases 8 - i,
    {
        seed.push(TREASURY_SEED[i]);
        i += 1;
    }
    let mut seeds: Vec<Vec<u8>> = Vec::new();
    seeds.push(seed);
    proof {
        assert(seed@ =~= TREASURY_SEED@);
        assert(seeds_view(seeds)[0] == TREASURY_SEED@);
        assert(seeds_view(seeds) =~= seq![TREASURY_SEED@]);
    }
    try_find_program_address(&seeds, program_id)
}

/// What [`initialize`] leaves, given the treasury address `derived` that
/// belongs to the program.
pub open spec fn initialized(
    pre: Initialize,
    post: Initialize,
    r: Result<(), Failure>,
    substrate: Substrate,
    derived: Option<(Seq<u8>, u8)>,
    users: [Address; 2],
    balances: [u64; 2],
    challenge_period: u64,
    expires_at: u64,
) -> bool {
    let needed = total_needed(balances@, substrate.minimum_reserve);
    match open_refusal(
        pre.treasury.key@,
        pre.treasury.owner@,
        pre.treasury.lamports,
        pre.treasury.data@.len(),
        pre.authority.lamports,
        substrate.program_id@,
        derived,
        parties(users),
        balances@,
        challenge_period,
        expires_at,
        substrate.now,
        substrate.minimum_reserve,
    ) {
        Some(failure) => r == Err::<(), Failure>(failure) && post == pre,
        None => {
            &&& r is Ok
            &&& post.channel@ == opened(
                pre.authority.key@,
                parties(users),
                balances@,
                challenge_period,
                expires_at,
                pre.bump,
                (derived->0).1,
            )
            &&& post.treasury == (Account {
                lamports: needed as u64,
                owner: substrate.program_id,
                ..pre.treasury
            })
            &&& post.authority == (Account {
                lamports: (pre.authority.lamports - needed) as u64,
                ..pre.authority
            })
            &&& post.bump == pre.bump
            &&& post.channel@.valid()
            &&& post.channel.expires_at > substrate.now
            &&& post.treasury.lamports == post.channel@.owed() + substrate.minimum_reserve
        },
    }
}

/// Opens a channel between `users` with the split `balances`, and funds its
/// treasury from the authority's account.
///
/// The refusals, in the order in which they are tested: `DuplicateUsers`
/// where both parties are the same; `InvalidChallengePeriod` where the period
/// is zero or `expires_at` is not after the present; `IllegalOwner` where the
/// treasury belongs neither to this program nor to the system program;
/// `AccountAlreadyInitialized` where the treasury holds value or data;
/// `BalanceOverflow` where balances and reserve do not fit in 64 bits;
/// `InvalidArgument` where the treasury is not at the address that belongs to
/// the program; `InsufficientFunds` where the authority cannot pay.
///
/// Otherwise the treasury holds exactly both balances and the reserve, it
/// belongs to the program, and the record starts at nonce zero with nothing
/// pending.
pub fn initialize(
    ctx: &mut Initialize,
    substrate: &Substrate,
    users: [Address; 2],
    balances: [u64; 2],
    challenge_period: u64,
    expires_at: u64,
) -> (r: Result<(), Failure>)
    ensures
        initialized(
            *old(ctx),
            *final(ctx),
            r,
            *substrate,
            program_address(seq![TREASURY_SEED@], substrate.program_id@),
            users,
            balances,
            challenge_period,
            expires_at,
        ),
{
    let derived = treasury_address(&substrate.program_id);
    initialize_derived(ctx, substrate, derived, users, balances, challenge_period, expires_at)
}

/// Opens a channel as [`initialize`] does, with the treasury address that
/// belongs to the program given as `derived`.
pub fn initialize_derived(
    ctx: &mut Initialize,
    substrate: &Substrate,
    derived: Option<(Address, u8)>,
    users: [Address; 2],
    balances: [u64; 2],
    challenge_period: u64,
    expires_at: u64,
) -> (r: Result<(), Failure>)
    ensures
        initialized(
            *old(ctx),
            *final(ctx),
            r,
            *substrate,
            derived_view(derived),
            users,
            balances,
            challenge_period,
            expires_at,
        ),
{
    if users[0] == users[1] {
        return Err(Failure::Channel(ChannelError::DuplicateUsers));
    }
    if challenge_period == 0 {
        return Err(Failure::Channel(ChannelError::InvalidChallengePeriod));
    }
    if expires_at <= substrate.now {
        return Err(Failure::Channel(ChannelError::InvalidChallengePeriod));
    }
    let system = Address::default();
    if ctx.treasury.owner != substrate.program_id && ctx.treasury.owner != system {
        return Err(Failure::Program(ProgramError::IllegalOwner));
    }
    if ctx.treasury.lamports > 0 || ctx.treasury.data.len() > 0 {
        return Err(Failure::Program(ProgramError::AccountAlreadyInitialized));
    }
    let balance_needed: u64 = match calculate_total_balance_needed(
        balances,
        substrate.minimum_reserve,
    ) {
        Ok(needed) => needed,
        Err(e) => {
            return Err(Failure::Channel(e));
        },
    };
    let treasury_bump_seed: u8 = match derived {
        Some((treasury_key, bump)) => {
            if treasury_key != ctx.treasury.key {
                return Err(Failure::Program(ProgramError::InvalidArgument));
            }
            bump
        },
        None => {
            return Err(Failure::Program(ProgramError::InvalidArgument));
        },
    };
    if ctx.authority.lamports < balance_needed {
        return Err(Failure::Program(ProgramError::InsufficientFunds));
    }
    ctx.authority.lamports = ctx.authority.lamports - balance_needed;
    ctx.treasury.lamports = balance_needed;
    ctx.treasury.owner = substrate.program_id;

    ctx.channel.authority = ctx.authority.key;
    ctx.channel.users = users;
    ctx.channel.balances = balances;
    ctx.channel.challenge_period = challenge_period;
    ctx.channel.expires_at = expires_at;
    ctx.channel.nonce = 0;
    ctx.channel.pending = Pending::Empty;
    ctx.channel.bump_seed = ctx.bump;
    ctx.channel.treasury_bump_seed = treasury_bump_seed;
    Ok(())
}

/// Proposes the split `balances` under `nonce`, or confirms it.
///
/// The refusals, in the order in which they are tested: `Expired` where the
/// present is not before the expiry time; `InvalidNonce` where `nonce` is
/// not above the committed one; `BalanceOverflow` where the sum of the
/// proposed balances does not fit in 64 bits; `InsufficientBalance` where the
/// treasury holds less than that sum; `NotUser` where the caller is no party;
/// and, where the call confirms, `ExpiresAtOverflow` where the new expiry
/// time does not fit in 64 bits.
///
/// A call confirms where another party has the same balances and nonce
/// pending. Then the split is committed: balances and nonce are those
/// proposed, the channel expires one challenge period from now, and the slot
/// is empty. Any other call puts its own proposal in the slot, whatever was
/// there. The treasury and the caller's account never change. `now` is the
/// present time.
pub fn challenge_exit(ctx: &mut ChallengeExit, now: u64, balances: [u64; 2], nonce: u64) -> (r:
    Result<(), Failure>)
    ensures
        final(ctx).treasury == old(ctx).treasury,
        final(ctx).user == old(ctx).user,
        now >= old(ctx).channel.expires_at ==> r == Err::<(), Failure>(
            Failure::Channel(ChannelError::Expired),
        ),
        old(ctx).custody().solvent() ==> final(ctx).custody().solvent(),
        old(ctx).channel@.valid() ==> final(ctx).channel@.valid(),
        final(ctx).channel@.same_terms(old(ctx).channel@),
        final(ctx).channel.nonce >= old(ctx).channel.nonce,
        final(ctx).channel.nonce != old(ctx).channel.nonce <==> r is Ok && old(
            ctx,
        ).channel@.confirmed_by(old(ctx).user.key@, balances@, nonce),
        final(ctx).custody() == apply(
            old(ctx).custody(),
            Operation::Propose {
                caller: old(ctx).user.key@,
                balances: balances@,
                nonce,
                now,
            },
        ),
        match exit_refusal(
            old(ctx).custody(),
            old(ctx).user.key@,
            balances@,
            nonce,
            now,
        ) {
            Some(e) => r == Err::<(), Failure>(Failure::Channel(e)) && *final(ctx) == *old(ctx),
            None => r is Ok && final(ctx).channel@ == exit_outcome(
                old(ctx).channel@,
                old(ctx).user.key@,
                balances@,
                nonce,
                now,
            ),
        },
{
    if ctx.channel.expires_at <= now {
        return Err(Failure::Channel(ChannelError::Expired));
    }
    if ctx.channel.nonce >= nonce {
        return Err(Failure::Channel(ChannelError::InvalidNonce));
    }
    match verify_balances(&ctx.treasury, balances) {
        Ok(()) => {},
        Err(e) => {
            return Err(Failure::Channel(e));
        },
    }
    match verify_user(ctx.channel.users, &ctx.user.key) {
        Ok(()) => {},
        Err(e) => {
            return Err(Failure::Channel(e));
        },
    }
    let confirmed: Option<Address> = match ctx.channel.pending {
        Pending::Empty => None,
        Pending::Proposed { proposer, balances: b, nonce: n } => {
            if proposer != ctx.user.key && b[0] == balances[0] && b[1] == balances[1] && n
                == nonce {
                assert(b@ =~= balances@);
                Some(proposer)
            } else {
                None
            }
        },
    };
    match confirmed {
        Some(proposer) => {
            match verify_user(ctx.channel.users, &proposer) {
                Ok(()) => {},
                Err(e) => {
                    return Err(Failure::Channel(e));
                },
            }
            let new_expires_at: u64 = match now.checked_add(ctx.channel.challenge_period) {
                Some(t) => t,
                None => {
                    return Err(Failure::Channel(ChannelError::ExpiresAtOverflow));
                },
            };
            ctx.channel.balances = balances;
            ctx.channel.expires_at = new_expires_at;
            ctx.channel.nonce = nonce;
            ctx.channel.pending = Pending::Empty;
        },
        None => {
            ctx.channel.pending = Pending::Proposed { proposer: ctx.user.key, balances, nonce };
        },
    }
    proof {
        let op = Operation::Propose {
            caller: old(ctx).user.key@,
            balances: balances@,
            nonce,
            now,
        };
        lemma_step_keeps_validity(old(ctx).custody(), op);
        if old(ctx).custody().solvent() {
            lemma_step_keeps_solvency(old(ctx).custody(), op);
        }
    }
    Ok(())
}

/// Pays the caller what the channel owes it, once the channel has expired.
///
/// The refusals, in the order in which they are tested: `NotExpired` where
/// the present is before the expiry time; `NotUser` where the caller is no
/// party; and, where something is owed, `InsufficientBalance` where the
/// treasury holds less and `BalanceOverflow` where the caller's account
/// cannot hold more.
///
/// Otherwise the caller's balance in the record is zero, and what it was has
/// moved from the treasury to the caller's account. `now` is the present
/// time.
pub fn withdraw(ctx: &mut Withdraw, now: u64) -> (r: Result<(), Failure>)
    ensures
        now < old(ctx).channel.expires_at ==> r == Err::<(), Failure>(
            Failure::Channel(ChannelError::NotExpired),
        ),
        old(ctx).custody().solvent() ==> final(ctx).custody().solvent(),
        old(ctx).channel@.valid() ==> final(ctx).channel@.valid(),
        final(ctx).channel@.same_terms(old(ctx).channel@),
        final(ctx).channel.nonce == old(ctx).channel.nonce,
        final(ctx).channel.expires_at == old(ctx).channel.expires_at,
        final(ctx).custody() == apply(
            old(ctx).custody(),
            Operation::Withdraw {
                caller: old(ctx).user.key@,
                holds: old(ctx).user.lamports,
                now,
            },
        ),
        match withdraw_refusal(
            old(ctx).custody(),
            old(ctx).user.key@,
            old(ctx).user.lamports,
            now,
        ) {
            Some(e) => r == Err::<(), Failure>(Failure::Channel(e)) && *final(ctx) == *old(ctx),
            None => {
                &&& r is Ok
                &&& final(ctx).custody() == withdraw_outcome(old(ctx).custody(), old(ctx).user.key@)
                &&& final(ctx).treasury == (Account {
                    lamports: final(ctx).treasury.lamports,
                    ..old(ctx).treasury
                })
                &&& final(ctx).user == (Account {
                    lamports: (old(ctx).user.lamports + withdrawn(
                        old(ctx).channel@,
                        old(ctx).user.key@,
                    )) as u64,
                    ..old(ctx).user
                })
            },
        },
{
    if ctx.channel.expires_at > now {
        return Err(Failure::Channel(ChannelError::NotExpired));
    }
    let idx: usize = match find_user_index(ctx.channel.users, &ctx.user.key) {
        Ok(idx) => idx,
        Err(e) => {
            return Err(Failure::Channel(e));
        },
    };
    let balance: u64 = ctx.channel.balances[idx];
    if balance > 0 {
        match transfer_from_treasury(&mut ctx.treasury, &mut ctx.user, balance) {
            Ok(()) => {},
            Err(e) => {
                return Err(Failure::Channel(e));
            },
        }
    }
    ctx.channel.balances[idx] = 0;
    proof {
        let op = Operation::Withdraw {
            caller: old(ctx).user.key@,
            holds: old(ctx).user.lamports,
            now,
        };
        lemma_step_keeps_validity(old(ctx).custody(), op);
        if old(ctx).custody().solvent() {
            lemma_step_keeps_solvency(old(ctx).custody(), op);
        }
    }
    Ok(())
}

/// Moves `lamports` from the payer's account into the treasury.
///
/// Anybody may pay, at any time. The deposit is refused with
/// `InsufficientFunds` where the payer holds less, and with
/// `BalanceOverflow` where the treasury cannot hold more. The record never
/// changes.
pub fn deposit_treasury(ctx: &mut DepositTreasury, lamports: u64) -> (r: Result<(), Failure>)
    ensures
        final(ctx).channel == old(ctx).channel,
        old(ctx).custody().solvent() ==> final(ctx).custody().solvent(),
        final(ctx).custody() == apply(
            old(ctx).custody(),
            Operation::Deposit { holds: old(ctx).payer.lamports, lamports },
        ),
        match deposit_refusal(old(ctx).treasury.lamports, old(ctx).payer.lamports, lamports) {
            Some(failure) => r == Err::<(), Failure>(failure) && *final(ctx) == *old(ctx),
            None => {
                &&& r is Ok
                &&& final(ctx).treasury == (Account {
                    lamports: (old(ctx).treasury.lamports + lamports) as u64,
                    ..old(ctx).treasury
                })
                &&& final(ctx).payer == (Account {
                    lamports: (old(ctx).payer.lamports - lamports) as u64,
                    ..old(ctx).payer
                })
            },
        },
{
    transfer_to_treasury(&mut ctx.treasury, &mut ctx.payer, lamports)
}

/// Moves `lamports` from `from` into the treasury.
///
/// Refused with `InsufficientFunds` where `from` holds less, and with
/// `BalanceOverflow` where the treasury cannot hold more; then neither
/// account changes.
pub fn transfer_to_treasury(treasury: &mut Account, from: &mut Account, lamports: u64) -> (r:
    Result<(), Failure>)
    ensures
        match deposit_refusal(old(treasury).lamports, old(from).lamports, lamports) {
            Some(failure) => {
                &&& r == Err::<(), Failure>(failure)
                &&& *final(treasury) == *old(treasury)
                &&& *final(from) == *old(from)
            },
            None => {
                &&& r is Ok
                &&& *final(treasury) == (Account {
                    lamports: (old(treasury).lamports + lamports) as u64,
                    ..*old(treasury)
                })
                &&& *final(from) == (Account {
                    lamports: (old(from).lamports - lamports) as u64,
                    ..*old(from)
                })
            },
        },
{
    if from.lamports < lamports {
        return Err(Failure::Program(ProgramError::InsufficientFunds));
    }
    match treasury.lamports.checked_add(lamports) {
        None => Err(Failure::Channel(ChannelError::BalanceOverflow)),
        Some(credited) => {
            treasury.lamports = credited;
            from.lamports = from.lamports - lamports;
            Ok(())
        },
    }
}

/// Pays the authority what the treasury holds beyond what both parties are
/// owed.
///
/// The refusals, in the order in which they are tested: `NotAuthority` where
/// the caller is not the authority that the record names; `BalanceOverflow`
/// where the sum of the balances does not fit in 64 bits, where the treasury
/// holds more than the sum and the surplus does not fit in 63 bits, or where
/// the authority's account cannot hold more.
///
/// Otherwise the surplus has moved to the authority's account, and the
/// treasury holds exactly what both parties are owed. Where the treasury
/// holds that or less, nothing moves. The record never changes.
pub fn withdraw_excess_treasury_authority(ctx: &mut WithdrawExcessTreasuryAuthority) -> (r: Result<
    (),
    Failure,
>)
    ensures
        final(ctx).channel == old(ctx).channel,
        old(ctx).custody().solvent() ==> final(ctx).custody().solvent(),
        r is Ok && old(ctx).custody().treasury > old(ctx).channel@.owed() ==> final(ctx).custody()
            .treasury == old(ctx).channel@.owed(),
        r is Ok && old(ctx).custody().treasury <= old(ctx).channel@.owed() ==> *final(ctx)
            == *old(ctx),
        final(ctx).custody() == apply(
            old(ctx).custody(),
            Operation::Reclaim {
                caller: old(ctx).authority.key@,
                holds: old(ctx).authority.lamports,
            },
        ),
        match reclaim_refusal(
            old(ctx).custody(),
            old(ctx).authority.key@,
            old(ctx).authority.lamports,
        ) {
            Some(failure) => r == Err::<(), Failure>(failure) && *final(ctx) == *old(ctx),
            None => {
                &&& r is Ok
                &&& final(ctx).treasury == (Account {
                    lamports: (old(ctx).treasury.lamports - excess(old(ctx).custody())) as u64,
                    ..old(ctx).treasury
                })
                &&& final(ctx).authority == (Account {
                    lamports: (old(ctx).authority.lamports + excess(old(ctx).custody())) as u64,
                    ..old(ctx).authority
                })
            },
        },
{
    if ctx.authority.key != ctx.channel.authority {
        return Err(Failure::NotAuthority);
    }
    let surplus: u64 = match calculate_excess_balance(&ctx.treasury, ctx.channel.balances) {
        Ok(surplus) => surplus,
        Err(e) => {
            return Err(Failure::Channel(e));
        },
    };
    if surplus > 0 {
        match transfer_from_treasury(&mut ctx.treasury, &mut ctx.authority, surplus) {
            Ok(()) => {},
            Err(e) => {
                return Err(Failure::Channel(e));
            },
        }
    }
    Ok(())
}

} // verus!
