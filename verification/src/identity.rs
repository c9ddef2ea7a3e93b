//! A registry of usernames: whoever claims a name first holds it.

use vstd::prelude::*;
use vstd::utf8::encode_utf8;
use crate::address::Address;
use crate::ledger::ProgramError;

verus! {

/// The seed of every username's address: the word "username".
pub const USERNAME_ACCOUNT_SEED: [u8; 8] = [117, 115, 101, 114, 110, 97, 109, 101];

/// The record of a claimed username.
#[derive(Clone, Debug, PartialEq, Eq)]
pub struct UserAccount {
    pub username: String,
    /// Who holds the name.
    pub authority: Address,
    pub bump: u8,
}

impl UserAccount {
    /// A username has fewer bytes than this.
    pub const MAX_USERNAME_LEN: usize = 140;

    /// The number of bytes that the record takes: a tag of 8 bytes, the
    /// length of the name in 4, the longest name, the authority and the bump
    /// seed.
    pub const SPACE: usize = 185;
}

/// The accounts of [`claim_username`].
#[derive(Clone, Debug, PartialEq, Eq)]
pub struct ClaimUsername {
    /// The record to fill.
    pub user: UserAccount,
    /// Who claims the name.
    pub authority: Address,
    /// The bump seed of the record's address.
    pub bump: u8,
}

/// Claims `username` for the authority.
///
/// Fails with `InvalidArgument` exactly when the name has 140 bytes or
/// more; then the record is as it was. Otherwise the record holds the name,
/// the authority and the bump seed.
pub fn claim_username(ctx: &mut ClaimUsername, username: String) -> (r: Result<(), ProgramError>)
    ensures
        final(ctx).authority == old(ctx).authority,
        final(ctx).bump == old(ctx).bump,
        encode_utf8(username@).len() >= UserAccount::MAX_USERNAME_LEN ==> r == Err::<
            (),
            ProgramError,
        >(ProgramError::InvalidArgument) && *final(ctx) == *old(ctx),
        encode_utf8(username@).len() < UserAccount::MAX_USERNAME_LEN ==> r is Ok
            && final(ctx).user.username == username && final(ctx).user.authority == old(
            ctx,
        ).authority && final(ctx).user.bump == old(ctx).bump,
{
    if username.as_str().as_bytes().len() >= UserAccount::MAX_USERNAME_LEN {
        return Err(ProgramError::InvalidArgument);
    }
    ctx.user.username = username;
    ctx.user.authority = ctx.authority;
    ctx.user.bump = ctx.bump;
    Ok(())
}

} // verus!
