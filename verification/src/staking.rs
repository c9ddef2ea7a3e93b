//! A staking escrow.
//!
//! An escrow holds tokens of one mint. Who stakes moves tokens into it, and
//! who closes a stake gets them back with a reward that grows with every
//! five seconds that the stake has lasted.

use vstd::prelude::*;
use crate::address::Address;
use crate::ledger::ConstraintError;
use crate::token::{TokenAccount, TokenTransfer};
use crate::wire::put_bytes;

verus! {

/// The seed of every escrow's address: the word "escrow".
pub const ESCROW_ACCOUNT_SEED: [u8; 6] = [101, 115, 99, 114, 111, 119];

/// The seed of every stake's address: the word "stake".
pub const STAKE_ACCOUNT_SEED: [u8; 5] = [115, 116, 97, 107, 101];

/// The reward for five seconds is the stake times this number, divided by
/// [`REWARD_PERCENT_PER_5_SECONDS_DIVISOR`].
pub const REWARD_PERCENT_PER_5_SECONDS_SIGNIFICAND: u128 = 2;

/// The number of decimal places of the reward rate.
pub const REWARD_PERCENT_PER_5_SECONDS_DECIMAL: u32 = 8;

/// Ten to the power of [`REWARD_PERCENT_PER_5_SECONDS_DECIMAL`].
pub const REWARD_PERCENT_PER_5_SECONDS_DIVISOR: u128 = 100_000_000;

/// The errors of the staking program.
#[derive(Clone, Copy, Debug, PartialEq, Eq, Structural)]
pub enum StakingError {
    ZeroAmount,
    RewardOutOfBounds,
    TotalAmountOutOfBounds,
    InsufficientFunds,
}

impl StakingError {
    /// What the error says of itself.
    pub open spec fn message(self) -> Seq<char> {
        match self {
            StakingError::ZeroAmount => "The amount cannot be zero."@,
            StakingError::RewardOutOfBounds => "The reward amount is out of bounds."@,
            StakingError::TotalAmountOutOfBounds => "The total amount is out of bounds."@,
            StakingError::InsufficientFunds => "The paying account has insufficient funds."@,
        }
    }

    /// What the error says of itself.
    pub fn to_string(&self) -> (r: String)
        ensures
            r@ == self.message(),
    {
        match self {
            StakingError::ZeroAmount => "The amount cannot be zero.".to_owned(),
            StakingError::RewardOutOfBounds => "The reward amount is out of bounds.".to_owned(),
            StakingError::TotalAmountOutOfBounds => "The total amount is out of bounds."
                .to_owned(),
            StakingError::InsufficientFunds => "The paying account has insufficient funds."
                .to_owned(),
        }
    }
}

/// Why the staking program refuses an instruction.
#[derive(Clone, Copy, Debug, PartialEq, Eq, Structural)]
pub enum Refusal {
    /// One of the program's own errors.
    Staking(StakingError),
    /// The accounts do not belong together.
    Constraint(ConstraintError),
}

/// The record of an escrow.
#[derive(Clone, Copy, Debug, Default, PartialEq, Eq)]
pub struct Escrow {
    pub payer: Address,
    pub mint: Address,
    pub bump: u8,
}

/// The record of a stake.
#[derive(Clone, Copy, Debug, Default, PartialEq, Eq)]
pub struct Stake {
    pub owner: Address,
    pub mint: Address,
    /// How many tokens are staked.
    pub amount: u64,
    /// When they were staked.
    pub created_at: u64,
    pub bump: u8,
}

/// The reward that a stake of `amount` made at `created_at` has earned at
/// `now`: for every five full seconds, two hundred-millionths of the stake,
/// rounded down once at the end.
pub open spec fn reward(amount: u64, created_at: u64, now: u64) -> int {
    if now <= created_at {
        0
    } else {
        ((now - created_at) / 5) * (amount * 2) / 100_000_000
    }
}

impl Stake {
    /// What the stake pays out at `now`: the stake and its reward.
    ///
    /// Fails with `RewardOutOfBounds` where the reward does not fit in 64
    /// bits, and with `TotalAmountOutOfBounds` where the reward does and the
    /// sum does not.
    pub fn calculate_total_amount(&self, now: u64) -> (r: Result<u64, StakingError>)
        ensures
            r == (if reward(self.amount, self.created_at, now) > u64::MAX {
                Err::<u64, StakingError>(StakingError::RewardOutOfBounds)
            } else if self.amount + reward(self.amount, self.created_at, now) > u64::MAX {
                Err::<u64, StakingError>(StakingError::TotalAmountOutOfBounds)
            } else {
                Ok::<u64, StakingError>(
                    (self.amount + reward(self.amount, self.created_at, now)) as u64,
                )
            }),
    {
        let earned: u64 = match self.calculate_reward(now) {
            Ok(earned) => earned,
            Err(e) => {
                return Err(e);
            },
        };
        match self.amount.checked_add(earned) {
            Some(total) => Ok(total),
            None => Err(StakingError::TotalAmountOutOfBounds),
        }
    }

    /// The reward that the stake has earned at `now`.
    ///
    /// Fails with `RewardOutOfBounds` exactly when it does not fit in 64
    /// bits.
    pub fn calculate_reward(&self, now: u64) -> (r: Result<u64, StakingError>)
        ensures
            r == (if reward(self.amount, self.created_at, now) > u64::MAX {
                Err::<u64, StakingError>(StakingError::RewardOutOfBounds)
            } else {
                Ok::<u64, StakingError>(reward(self.amount, self.created_at, now) as u64)
            }),
            reward(self.amount, self.created_at, now) >= 0,
    {
        if now <= self.created_at {
            return Ok(0);
        }
        let time_elapsed: u128 = (now - self.created_at) as u128;
        let periods: u128 = time_elapsed / 5;
        let doubled: u128 = self.amount as u128 * REWARD_PERCENT_PER_5_SECONDS_SIGNIFICAND;
        assert(periods * doubled <= 3689348814741910323 * 36893488147419103230) by (nonlinear_arith)
            requires
                0 <= periods <= 3689348814741910323,
                0 <= doubled <= 36893488147419103230,
        ;
        assert(periods * doubled >= 0) by (nonlinear_arith)
            requires
                0 <= periods,
                0 <= doubled,
        ;
        let earned: u128 = periods * doubled / REWARD_PERCENT_PER_5_SECONDS_DIVISOR;
        if earned > u64::MAX as u128 {
            Err(StakingError::RewardOutOfBounds)
        } else {
            Ok(earned as u64)
        }
    }

    /// A stake earns nothing before five seconds have passed, and never
    /// less as time goes on.
    pub proof fn lemma_reward_grows(amount: u64, created_at: u64, now: u64, later: u64)
        requires
            now <= later,
        ensures
            0 <= reward(amount, created_at, now) <= reward(amount, created_at, later),
            now < created_at + 5 ==> reward(amount, created_at, now) == 0,
    {
        if now > created_at {
            let p = (now - created_at) / 5;
            let q = (later - created_at) / 5;
            let d = amount * 2;
            assert(0 <= p * d <= q * d) by (nonlinear_arith)
                requires
                    0 <= p <= q,
                    0 <= d,
            ;
            assert(0 <= (p * d) / 100_000_000 <= (q * d) / 100_000_000) by (nonlinear_arith)
                requires
                    0 <= p * d <= q * d,
            ;
            if now < created_at + 5 {
                assert(p == 0);
                assert(p * d == 0) by (nonlinear_arith)
                    requires
                        p == 0,
                ;
            }
        } else if later > created_at {
            let q = (later - created_at) / 5;
            let d = amount * 2;
            assert(0 <= q * d) by (nonlinear_arith)
                requires
                    0 <= q,
                    0 <= d,
            ;
            assert(0 <= (q * d) / 100_000_000) by (nonlinear_arith)
                requires
                    0 <= q * d,
            ;
        }
    }
}

/// The accounts of [`create_escrow_account`].
#[derive(Clone, Copy, Debug, PartialEq, Eq)]
pub struct CreateEscrowAccount {
    /// Where the escrow lives.
    pub escrow_key: Address,
    /// The record to fill.
    pub escrow: Escrow,
    pub payer: Address,
    pub mint: Address,
    /// The token account that holds what is staked.
    pub escrow_token: TokenAccount,
    /// The bump seed of the escrow's address.
    pub bump: u8,
}

/// The accounts of [`fund_escrow_account`].
#[derive(Clone, Copy, Debug, PartialEq, Eq)]
pub struct FundEscrowAccount {
    pub escrow_key: Address,
    pub escrow: Escrow,
    pub payer: Address,
    pub mint: Address,
    pub escrow_token: TokenAccount,
    /// The token account that pays.
    pub payer_token: TokenAccount,
}

/// The accounts of [`create_stake_account`].
#[derive(Clone, Copy, Debug, PartialEq, Eq)]
pub struct CreateStakeAccount {
    /// The record to fill.
    pub stake: Stake,
    pub escrow_key: Address,
    pub escrow: Escrow,
    pub owner: Address,
    pub mint: Address,
    pub escrow_token: TokenAccount,
    /// The token account that the stake comes from.
    pub owner_token: TokenAccount,
    /// The bump seed of the stake's address.
    pub bump: u8,
}

/// The accounts of [`close_stake_account`].
#[derive(Clone, Copy, Debug, PartialEq, Eq)]
pub struct CloseStakeAccount {
    pub stake: Stake,
    pub escrow_key: Address,
    pub escrow: Escrow,
    pub owner: Address,
    pub mint: Address,
    pub escrow_token: TokenAccount,
    /// The token account that the stake goes back to.
    pub owner_token: TokenAccount,
}

/// The rule on the escrow's token account: it holds tokens of `mint`, and
/// the escrow owns it.
pub open spec fn escrow_token_refusal(token: TokenAccount, mint: Address, escrow_key: Address)
    -> Option<ConstraintError> {
    if token.mint@ != mint@ {
        Some(ConstraintError::HasOne)
    } else if token.owner@ != escrow_key@ {
        Some(ConstraintError::Raw)
    } else {
        None
    }
}

/// Checks the rule on the escrow's token account.
pub fn check_escrow_token(token: &TokenAccount, mint: &Address, escrow_key: &Address) -> (r: Result<
    (),
    ConstraintError,
>)
    ensures
        r == (match escrow_token_refusal(*token, *mint, *escrow_key) {
            Some(e) => Err::<(), ConstraintError>(e),
            None => Ok::<(), ConstraintError>(()),
        }),
{
    if token.mint != *mint {
        Err(ConstraintError::HasOne)
    } else if token.owner != *escrow_key {
        Err(ConstraintError::Raw)
    } else {
        Ok(())
    }
}

/// The rule on a staker's token account: it belongs to `owner` and holds
/// tokens of `mint`.
pub open spec fn owner_token_refusal(token: TokenAccount, owner: Address, mint: Address) -> Option<
    ConstraintError,
> {
    if token.owner@ != owner@ || token.mint@ != mint@ {
        Some(ConstraintError::HasOne)
    } else {
        None
    }
}

/// Checks the rule on a staker's token account.
pub fn check_owner_token(token: &TokenAccount, owner: &Address, mint: &Address) -> (r: Result<
    (),
    ConstraintError,
>)
    ensures
        r == (match owner_token_refusal(*token, *owner, *mint) {
            Some(e) => Err::<(), ConstraintError>(e),
            None => Ok::<(), ConstraintError>(()),
        }),
{
    if token.owner != *owner || token.mint != *mint {
        Err(ConstraintError::HasOne)
    } else {
        Ok(())
    }
}

/// Fills the record of a new escrow: who paid for it, for which mint, and
/// its bump seed.
///
/// Refused where the escrow's token account is of another mint (`HasOne`)
/// or not the escrow's (`Raw`); then the record is as it was.
pub fn create_escrow_account(ctx: &mut CreateEscrowAccount) -> (r: Result<(), Refusal>)
    ensures
        match escrow_token_refusal(old(ctx).escrow_token, old(ctx).mint, old(ctx).escrow_key) {
            Some(e) => r == Err::<(), Refusal>(Refusal::Constraint(e)) && *final(ctx) == *old(ctx),
            None => r is Ok && *final(ctx) == (CreateEscrowAccount {
                escrow: Escrow { payer: old(ctx).payer, mint: old(ctx).mint, bump: old(ctx).bump },
                ..*old(ctx)
            }),
        },
{
    match check_escrow_token(&ctx.escrow_token, &ctx.mint, &ctx.escrow_key) {
        Ok(()) => {},
        Err(e) => {
            return Err(Refusal::Constraint(e));
        },
    }
    ctx.escrow.payer = ctx.payer;
    ctx.escrow.mint = ctx.mint;
    ctx.escrow.bump = ctx.bump;
    Ok(())
}

impl FundEscrowAccount {
    /// The request to move `amount` from the payer's tokens to the escrow's,
    /// on the payer's word.
    pub fn transfer_to_escrow(&self, amount: u64) -> (r: TokenTransfer)
        ensures
            r.from == self.payer_token.key,
            r.to == self.escrow_token.key,
            r.authority == self.payer,
            r.amount == amount,
            r.seeds() == Seq::<Seq<u8>>::empty(),
    {
        let r = TokenTransfer {
            from: self.payer_token.key,
            to: self.escrow_token.key,
            authority: self.payer,
            amount,
            signer_seeds: Vec::new(),
        };
        assert(r.seeds() =~= Seq::<Seq<u8>>::empty());
        r
    }
}

impl CreateStakeAccount {
    /// The request to move `amount` from the owner's tokens to the escrow's,
    /// on the owner's word.
    pub fn transfer_to_escrow(&self, amount: u64) -> (r: TokenTransfer)
        ensures
            r.from == self.owner_token.key,
            r.to == self.escrow_token.key,
            r.authority == self.owner,
            r.amount == amount,
            r.seeds() == Seq::<Seq<u8>>::empty(),
    {
        let r = TokenTransfer {
            from: self.owner_token.key,
            to: self.escrow_token.key,
            authority: self.owner,
            amount,
            signer_seeds: Vec::new(),
        };
        assert(r.seeds() =~= Seq::<Seq<u8>>::empty());
        r
    }
}

/// The seeds with which the program signs for the escrow of `mint`.
pub open spec fn escrow_signer_seeds(mint: Seq<u8>, bump: u8) -> Seq<Seq<u8>> {
    seq![ESCROW_ACCOUNT_SEED@, mint, seq![bump]]
}

impl CloseStakeAccount {
    /// The request to move `amount` from the escrow's tokens to the owner's,
    /// signed by the program for the escrow with the bump seed `bump`.
    pub fn transfer_from_escrow(&self, bump: u8, amount: u64) -> (r: TokenTransfer)
        ensures
            r.from == self.escrow_token.key,
            r.to == self.owner_token.key,
            r.authority == self.escrow_key,
            r.amount == amount,
            r.seeds() == escrow_signer_seeds(self.mint@, bump),
    {
        let mut word: Vec<u8> = Vec::new();
        put_bytes(&mut word, ESCROW_ACCOUNT_SEED.as_slice());
        let mut mint: Vec<u8> = Vec::new();
        put_bytes(&mut mint, self.mint.bytes.as_slice());
        let mut last: Vec<u8> = Vec::new();
        last.push(bump);
        let mut signer_seeds: Vec<Vec<u8>> = Vec::new();
        signer_seeds.push(word);
        signer_seeds.push(mint);
        signer_seeds.push(last);
        let r = TokenTransfer {
            from: self.escrow_token.key,
            to: self.owner_token.key,
            authority: self.escrow_key,
            amount,
            signer_seeds,
        };
        proof {
            assert(r.seeds()[0] =~= ESCROW_ACCOUNT_SEED@);
            assert(r.seeds()[1] =~= self.mint@);
            assert(r.seeds()[2] =~= seq![bump]);
            assert(r.seeds() =~= escrow_signer_seeds(self.mint@, bump));
        }
        r
    }
}

/// Why an escrow cannot be funded, if it cannot.
pub open spec fn fund_refusal(ctx: FundEscrowAccount, amount: u64) -> Option<Refusal> {
    if escrow_token_refusal(ctx.escrow_token, ctx.mint, ctx.escrow_key) is Some {
        Some(
            Refusal::Constraint(
                escrow_token_refusal(ctx.escrow_token, ctx.mint, ctx.escrow_key)->0,
            ),
        )
    } else if ctx.payer_token.mint@ != ctx.mint@ {
        Some(Refusal::Constraint(ConstraintError::HasOne))
    } else if ctx.payer_token.owner@ != ctx.payer@ {
        Some(Refusal::Constraint(ConstraintError::Raw))
    } else if ctx.payer_token.amount < amount {
        Some(Refusal::Staking(StakingError::InsufficientFunds))
    } else {
        None
    }
}

/// Moves `amount` tokens of the payer into the escrow.
///
/// Refused where the token accounts do not belong to the escrow, the mint
/// and the payer, and with `InsufficientFunds` where the payer holds less.
/// Otherwise the result is the request to the token program.
pub fn fund_escrow_account(ctx: &FundEscrowAccount, amount: u64) -> (r: Result<
    TokenTransfer,
    Refusal,
>)
    ensures
        match fund_refusal(*ctx, amount) {
            Some(e) => r == Err::<TokenTransfer, Refusal>(e),
            None => r matches Ok(t) && t.from == ctx.payer_token.key && t.to
                == ctx.escrow_token.key && t.authority == ctx.payer && t.amount == amount
                && t.seeds() == Seq::<Seq<u8>>::empty(),
        },
{
    match check_escrow_token(&ctx.escrow_token, &ctx.mint, &ctx.escrow_key) {
        Ok(()) => {},
        Err(e) => {
            return Err(Refusal::Constraint(e));
        },
    }
    if ctx.payer_token.mint != ctx.mint {
        return Err(Refusal::Constraint(ConstraintError::HasOne));
    }
    if ctx.payer_token.owner != ctx.payer {
        return Err(Refusal::Constraint(ConstraintError::Raw));
    }
    if ctx.payer_token.amount < amount {
        return Err(Refusal::Staking(StakingError::InsufficientFunds));
    }
    Ok(ctx.transfer_to_escrow(amount))
}

/// Why a stake cannot be made, if it cannot.
pub open spec fn stake_refusal(ctx: CreateStakeAccount, amount: u64) -> Option<Refusal> {
    if escrow_token_refusal(ctx.escrow_token, ctx.mint, ctx.escrow_key) is Some {
        Some(
            Refusal::Constraint(
                escrow_token_refusal(ctx.escrow_token, ctx.mint, ctx.escrow_key)->0,
            ),
        )
    } else if owner_token_refusal(ctx.owner_token, ctx.owner, ctx.mint) is Some {
        Some(Refusal::Constraint(owner_token_refusal(ctx.owner_token, ctx.owner, ctx.mint)->0))
    } else if amount == 0 {
        Some(Refusal::Staking(StakingError::ZeroAmount))
    } else if ctx.owner_token.amount < amount {
        Some(Refusal::Staking(StakingError::InsufficientFunds))
    } else {
        None
    }
}

/// Stakes `amount` tokens of the owner at the time `now`.
///
/// Refused where the token accounts do not belong to the escrow, the mint
/// and the owner, with `ZeroAmount` for a stake of nothing, and with
/// `InsufficientFunds` where the owner holds less; then the record is as it
/// was. Otherwise the record says who staked how much of which mint and
/// when, and the result is the request to the token program.
pub fn create_stake_account(ctx: &mut CreateStakeAccount, amount: u64, now: u64) -> (r: Result<
    TokenTransfer,
    Refusal,
>)
    ensures
        match stake_refusal(*old(ctx), amount) {
            Some(e) => r == Err::<TokenTransfer, Refusal>(e) && *final(ctx) == *old(ctx),
            None => {
                &&& r matches Ok(t) && t.from == old(ctx).owner_token.key && t.to == old(
                    ctx,
                ).escrow_token.key && t.authority == old(ctx).owner && t.amount == amount
                    && t.seeds() == Seq::<Seq<u8>>::empty()
                &&& *final(ctx) == (CreateStakeAccount {
                    stake: Stake {
                        owner: old(ctx).owner,
                        mint: old(ctx).mint,
                        amount,
                        created_at: now,
                        bump: old(ctx).bump,
                    },
                    ..*old(ctx)
                })
            },
        },
{
    match check_escrow_token(&ctx.escrow_token, &ctx.mint, &ctx.escrow_key) {
        Ok(()) => {},
        Err(e) => {
            return Err(Refusal::Constraint(e));
        },
    }
    match check_owner_token(&ctx.owner_token, &ctx.owner, &ctx.mint) {
        Ok(()) => {},
        Err(e) => {
            return Err(Refusal::Constraint(e));
        },
    }
    if amount == 0 {
        return Err(Refusal::Staking(StakingError::ZeroAmount));
    }
    if ctx.owner_token.amount < amount {
        return Err(Refusal::Staking(StakingError::InsufficientFunds));
    }
    ctx.stake.owner = ctx.owner;
    ctx.stake.mint = ctx.mint;
    ctx.stake.amount = amount;
    ctx.stake.created_at = now;
    ctx.stake.bump = ctx.bump;
    Ok(ctx.transfer_to_escrow(amount))
}

/// Why a stake cannot be closed, if it cannot.
pub open spec fn close_refusal(ctx: CloseStakeAccount, now: u64) -> Option<Refusal> {
    let earned = reward(ctx.stake.amount, ctx.stake.created_at, now);
    if escrow_token_refusal(ctx.escrow_token, ctx.mint, ctx.escrow_key) is Some {
        Some(
            Refusal::Constraint(
                escrow_token_refusal(ctx.escrow_token, ctx.mint, ctx.escrow_key)->0,
            ),
        )
    } else if owner_token_refusal(ctx.owner_token, ctx.owner, ctx.mint) is Some {
        Some(Refusal::Constraint(owner_token_refusal(ctx.owner_token, ctx.owner, ctx.mint)->0))
    } else if earned > u64::MAX {
        Some(Refusal::Staking(StakingError::RewardOutOfBounds))
    } else if ctx.stake.amount + earned > u64::MAX {
        Some(Refusal::Staking(StakingError::TotalAmountOutOfBounds))
    } else {
        None
    }
}

/// Closes a stake at the time `now`: the stake and its reward go back to the
/// owner.
///
/// Refused where the token accounts do not belong to the escrow, the mint
/// and the owner, and where the reward or the sum does not fit in 64 bits.
/// Otherwise the result is the request to the token program, signed for the
/// escrow.
pub fn close_stake_account(ctx: &CloseStakeAccount, now: u64) -> (r: Result<TokenTransfer, Refusal>)
    ensures
        match close_refusal(*ctx, now) {
            Some(e) => r == Err::<TokenTransfer, Refusal>(e),
            None => r matches Ok(t) && t.from == ctx.escrow_token.key && t.to
                == ctx.owner_token.key && t.authority == ctx.escrow_key && t.amount
                == ctx.stake.amount + reward(ctx.stake.amount, ctx.stake.created_at, now)
                && t.seeds() == escrow_signer_seeds(ctx.mint@, ctx.escrow.bump),
        },
{
    match check_escrow_token(&ctx.escrow_token, &ctx.mint, &ctx.escrow_key) {
        Ok(()) => {},
        Err(e) => {
            return Err(Refusal::Constraint(e));
        },
    }
    match check_owner_token(&ctx.owner_token, &ctx.owner, &ctx.mint) {
        Ok(()) => {},
        Err(e) => {
            return Err(Refusal::Constraint(e));
        },
    }
    let total: u64 = match ctx.stake.calculate_total_amount(now) {
        Ok(total) => total,
        Err(e) => {
            return Err(Refusal::Staking(e));
        },
    };
    Ok(ctx.transfer_from_escrow(ctx.escrow.bump, total))
}

} // verus!
