//! A wallet that several users share: any of them can move its tokens.

use vstd::prelude::*;
use crate::address::Address;
use crate::ledger::ConstraintError;
use crate::token::{TokenAccount, TokenTransfer};
use crate::wire::put_bytes;

verus! {

/// The seed of the wallet's address: the word "wallet".
pub const WALLET_ACCOUNT_SEED: [u8; 6] = [119, 97, 108, 108, 101, 116];

/// The record of a wallet.
#[derive(Clone, Debug, Default, PartialEq, Eq)]
pub struct Wallet {
    /// Who may move the wallet's tokens.
    pub users: Vec<Address>,
    pub bump: u8,
}

impl Wallet {
    /// The addresses of the users, as plain values.
    pub open spec fn members(self) -> Seq<Seq<u8>> {
        self.users@.map_values(|user: Address| user@)
    }

    /// The number of bytes that the record of a wallet with `num_owners`
    /// users takes: a tag of 8 bytes, the number of users in 4, 32 for each
    /// user, and the bump seed.
    pub fn space(num_owners: usize) -> (r: usize)
        requires
            13 + num_owners * 32 <= usize::MAX,
        ensures
            r == 13 + num_owners * 32,
    {
        8 + 4 + num_owners * 32 + 1
    }

    /// Whether `user` is one of the wallet's users.
    pub fn has_user(&self, user: &Address) -> (r: bool)
        ensures
            r == self.members().contains(user@),
    {
        let mut i: usize = 0;
        while i < self.users.len()
            invariant
                i <= self.users.len(),
                forall|j: int| 0 <= j < i ==> self.members()[j] != user@,
            decreases self.users.len() - i,
        {
            if self.users[i] == *user {
                assert(self.members()[i as int] == user@);
                return true;
            }
            i += 1;
        }
        false
    }
}

/// The accounts of [`create`].
#[derive(Clone, Debug, PartialEq, Eq)]
pub struct Create {
    /// The record to fill.
    pub wallet: Wallet,
    pub payer: Address,
    /// The bump seed of the wallet's address.
    pub bump: u8,
}

/// The accounts of [`transfer_tokens`].
#[derive(Clone, Debug, PartialEq, Eq)]
pub struct TransferTokens {
    /// Where the wallet lives.
    pub wallet_key: Address,
    pub wallet: Wallet,
    /// Who asks; has signed.
    pub user: Address,
    pub mint: Address,
    /// The wallet's tokens.
    pub wallet_token: TokenAccount,
    /// Where the tokens go.
    pub destination_token: TokenAccount,
}

/// Fills the record of a new wallet with its users and its bump seed.
pub fn create(ctx: &mut Create, users: Vec<Address>)
    ensures
        final(ctx).wallet.users == users,
        final(ctx).wallet.bump == old(ctx).bump,
        final(ctx).payer == old(ctx).payer,
        final(ctx).bump == old(ctx).bump,
{
    ctx.wallet.users = users;
    ctx.wallet.bump = ctx.bump;
}

/// Whether the accounts of a transfer belong together: the user is one of
/// the wallet's, the wallet's tokens are of the mint and the wallet's own,
/// and the tokens go to an account of the same mint.
pub open spec fn transfer_allowed(ctx: TransferTokens) -> bool {
    &&& ctx.wallet.members().contains(ctx.user@)
    &&& ctx.wallet_token.mint@ == ctx.mint@
    &&& ctx.wallet_token.owner@ == ctx.wallet_key@
    &&& ctx.destination_token.mint@ == ctx.mint@
}

/// The seeds with which the program signs for the wallet.
pub open spec fn wallet_signer_seeds(bump: u8) -> Seq<Seq<u8>> {
    seq![WALLET_ACCOUNT_SEED@, seq![bump]]
}

/// Moves `amount` of the wallet's tokens to the destination.
///
/// Refused with `Raw` exactly where the accounts do not belong together (see
/// [`transfer_allowed`]). Otherwise the result is the request to the token
/// program, signed by the program for the wallet.
pub fn transfer_tokens(ctx: &TransferTokens, amount: u64) -> (r: Result<
    TokenTransfer,
    ConstraintError,
>)
    ensures
        match r {
            Ok(t) => {
                &&& transfer_allowed(*ctx)
                &&& t.from == ctx.wallet_token.key
                &&& t.to == ctx.destination_token.key
                &&& t.authority == ctx.wallet_key
                &&& t.amount == amount
                &&& t.seeds() == wallet_signer_seeds(ctx.wallet.bump)
            },
            Err(e) => e == ConstraintError::Raw && !transfer_allowed(*ctx),
        },
{
    if !ctx.wallet.has_user(&ctx.user) {
        return Err(ConstraintError::Raw);
    }
    if !(ctx.wallet_token.mint == ctx.mint && ctx.wallet_token.owner == ctx.wallet_key) {
        return Err(ConstraintError::Raw);
    }
    if ctx.destination_token.mint != ctx.mint {
        return Err(ConstraintError::Raw);
    }
    let mut word: Vec<u8> = Vec::new();
    put_bytes(&mut word, WALLET_ACCOUNT_SEED.as_slice());
    let mut last: Vec<u8> = Vec::new();
    last.push(ctx.wallet.bump);
    let mut signer_seeds: Vec<Vec<u8>> = Vec::new();
    signer_seeds.push(word);
    signer_seeds.push(last);
    let t = TokenTransfer {
        from: ctx.wallet_token.key,
        to: ctx.destination_token.key,
        authority: ctx.wallet_key,
        amount,
        signer_seeds,
    };
    proof {
        assert(t.seeds()[0] =~= WALLET_ACCOUNT_SEED@);
        assert(t.seeds()[1] =~= seq![ctx.wallet.bump]);
        assert(t.seeds() =~= wallet_signer_seeds(ctx.wallet.bump));
    }
    Ok(t)
}

} // verus!
