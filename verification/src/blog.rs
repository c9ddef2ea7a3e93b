//! A blog that keeps the latest post of its author.

use vstd::prelude::*;
use vstd::utf8::valid_utf8;
use crate::address::Address;
use crate::ledger::{ConstraintError, ProgramError};
use crate::wire::{put_bytes, string_from_utf8};

verus! {

/// The record of a blog.
#[derive(Clone, Debug, PartialEq, Eq)]
pub struct BlogAccount {
    /// Who may post.
    pub authority: Address,
    /// The bytes of the latest post.
    pub latest_post: Vec<u8>,
}

/// The accounts of [`initialize`].
#[derive(Clone, Debug, PartialEq, Eq)]
pub struct Initialize {
    /// The record to fill.
    pub blog_account: BlogAccount,
    /// Who opens the blog.
    pub authority: Address,
}

/// The accounts of [`make_post`].
#[derive(Clone, Debug, PartialEq, Eq)]
pub struct MakePost {
    pub blog_account: BlogAccount,
    /// Who posts; has signed.
    pub authority: Address,
}

/// Why a post is refused.
#[derive(Clone, Copy, Debug, PartialEq, Eq, Structural)]
pub enum Refusal {
    /// The accounts do not belong together.
    Constraint(ConstraintError),
    /// A refusal in the ledger's own words.
    Program(ProgramError),
}

/// Opens a blog for the authority.
pub fn initialize(ctx: &mut Initialize)
    ensures
        final(ctx).blog_account.authority == old(ctx).authority,
        final(ctx).blog_account.latest_post == old(ctx).blog_account.latest_post,
        final(ctx).authority == old(ctx).authority,
{
    ctx.blog_account.authority = ctx.authority;
}

/// Makes `new_post` the latest post of the blog.
///
/// Refused with `HasOne` where the one who posts is not the blog's
/// authority, and with `InvalidInstructionData` where the post is not valid
/// UTF-8; then the blog is as it was. Otherwise the blog holds the post, and
/// the result is its text for the log.
pub fn make_post(ctx: &mut MakePost, new_post: Vec<u8>) -> (r: Result<String, Refusal>)
    ensures
        final(ctx).authority == old(ctx).authority,
        final(ctx).blog_account.authority == old(ctx).blog_account.authority,
        old(ctx).blog_account.authority@ != old(ctx).authority@ ==> r == Err::<String, Refusal>(
            Refusal::Constraint(ConstraintError::HasOne),
        ) && *final(ctx) == *old(ctx),
        old(ctx).blog_account.authority@ == old(ctx).authority@ && !valid_utf8(new_post@) ==> r
            == Err::<String, Refusal>(Refusal::Program(ProgramError::InvalidInstructionData))
            && *final(ctx) == *old(ctx),
        old(ctx).blog_account.authority@ == old(ctx).authority@ && valid_utf8(new_post@) ==> {
            &&& r matches Ok(text) && text@ == vstd::utf8::decode_utf8(new_post@)
            &&& final(ctx).blog_account.latest_post == new_post
        },
{
    if ctx.blog_account.authority != ctx.authority {
        return Err(Refusal::Constraint(ConstraintError::HasOne));
    }
    let mut copy: Vec<u8> = Vec::new();
    put_bytes(&mut copy, new_post.as_slice());
    let post = match string_from_utf8(copy) {
        Some(post) => post,
        None => {
            return Err(Refusal::Program(ProgramError::InvalidInstructionData));
        },
    };
    ctx.blog_account.latest_post = new_post;
    Ok(post)
}

} // verus!
