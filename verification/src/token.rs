//! Token accounts as the programs see them, what the programs ask of the
//! token program, and a proxy that passes such requests on.

use vstd::prelude::*;
use crate::address::Address;

verus! {

/// An account of the token program: how much of which mint it holds, and
/// for whom.
#[derive(Clone, Copy, Debug, PartialEq, Eq)]
pub struct TokenAccount {
    /// Where the account lives.
    pub key: Address,
    /// The mint of the tokens.
    pub mint: Address,
    /// Who may move them.
    pub owner: Address,
    /// How many there are.
    pub amount: u64,
}

/// The request to move `amount` tokens from `from` to `to` on the word of
/// `authority`.
#[derive(Clone, Debug, PartialEq, Eq)]
pub struct TokenTransfer {
    pub from: Address,
    pub to: Address,
    pub authority: Address,
    pub amount: u64,
    /// The seeds with which the program signs for `authority`; none where
    /// `authority` has signed itself.
    pub signer_seeds: Vec<Vec<u8>>,
}

impl TokenTransfer {
    /// The seeds of the request, as plain values.
    pub open spec fn seeds(self) -> Seq<Seq<u8>> {
        self.signer_seeds@.map_values(|seed: Vec<u8>| seed@)
    }
}

/// The kinds of authority over a mint or a token account.
#[derive(Clone, Copy, Debug, PartialEq, Eq, Structural)]
pub enum AuthorityType {
    /// To mint new tokens.
    MintTokens,
    /// To freeze accounts of the mint.
    FreezeAccount,
    /// To own a token account.
    AccountOwner,
    /// To close a token account.
    CloseAccount,
}

impl AuthorityType {
    /// The number that stands for the kind in the token program's
    /// instructions.
    pub fn code(&self) -> (r: u8)
        ensures
            r == match *self {
                AuthorityType::MintTokens => 0u8,
                AuthorityType::FreezeAccount => 1u8,
                AuthorityType::AccountOwner => 2u8,
                AuthorityType::CloseAccount => 3u8,
            },
    {
        match self {
            AuthorityType::MintTokens => 0,
            AuthorityType::FreezeAccount => 1,
            AuthorityType::AccountOwner => 2,
            AuthorityType::CloseAccount => 3,
        }
    }
}

/// The accounts of [`proxy_transfer`].
#[derive(Clone, Copy, Debug, PartialEq, Eq)]
pub struct ProxyTransfer {
    pub authority: Address,
    pub from: Address,
    pub to: Address,
}

/// The accounts of [`proxy_mint_to`].
#[derive(Clone, Copy, Debug, PartialEq, Eq)]
pub struct ProxyMintTo {
    pub authority: Address,
    pub mint: Address,
    pub to: Address,
}

/// The accounts of [`proxy_burn`].
#[derive(Clone, Copy, Debug, PartialEq, Eq)]
pub struct ProxyBurn {
    pub authority: Address,
    pub mint: Address,
    pub to: Address,
}

/// The accounts of [`proxy_set_authority`].
#[derive(Clone, Copy, Debug, PartialEq, Eq)]
pub struct ProxySetAuthority {
    pub current_authority: Address,
    pub account_or_mint: Address,
}

/// What the proxy asks of the token program.
#[derive(Clone, Copy, Debug, PartialEq, Eq)]
pub enum TokenCall {
    /// Move `amount` tokens from `from` to `to`.
    Transfer { from: Address, to: Address, authority: Address, amount: u64 },
    /// Mint `amount` new tokens of `mint` into `to`.
    MintTo { mint: Address, to: Address, authority: Address, amount: u64 },
    /// Burn `amount` tokens of `mint` that `to` holds.
    Burn { mint: Address, to: Address, authority: Address, amount: u64 },
    /// Hand the authority of kind `authority_type` over `account_or_mint` to
    /// `new_authority`, or to nobody.
    SetAuthority {
        account_or_mint: Address,
        current_authority: Address,
        authority_type: AuthorityType,
        new_authority: Option<Address>,
    },
}

/// Passes a transfer on to the token program.
pub fn proxy_transfer(ctx: &ProxyTransfer, amount: u64) -> (r: TokenCall)
    ensures
        r == (TokenCall::Transfer {
            from: ctx.from,
            to: ctx.to,
            authority: ctx.authority,
            amount,
        }),
{
    TokenCall::Transfer { from: ctx.from, to: ctx.to, authority: ctx.authority, amount }
}

/// Passes a minting on to the token program.
pub fn proxy_mint_to(ctx: &ProxyMintTo, amount: u64) -> (r: TokenCall)
    ensures
        r == (TokenCall::MintTo { mint: ctx.mint, to: ctx.to, authority: ctx.authority, amount }),
{
    TokenCall::MintTo { mint: ctx.mint, to: ctx.to, authority: ctx.authority, amount }
}

/// Passes a burning on to the token program.
pub fn proxy_burn(ctx: &ProxyBurn, amount: u64) -> (r: TokenCall)
    ensures
        r == (TokenCall::Burn { mint: ctx.mint, to: ctx.to, authority: ctx.authority, amount }),
{
    TokenCall::Burn { mint: ctx.mint, to: ctx.to, authority: ctx.authority, amount }
}

/// Passes a change of authority on to the token program.
pub fn proxy_set_authority(
    ctx: &ProxySetAuthority,
    authority_type: AuthorityType,
    new_authority: Option<Address>,
) -> (r: TokenCall)
    ensures
        r == (TokenCall::SetAuthority {
            account_or_mint: ctx.account_or_mint,
            current_authority: ctx.current_authority,
            authority_type,
            new_authority,
        }),
{
    TokenCall::SetAuthority {
        account_or_mint: ctx.account_or_mint,
        current_authority: ctx.current_authority,
        authority_type,
        new_authority,
    }
}

} // verus!
