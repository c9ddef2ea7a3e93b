//! The checks and transfers that the channel's operations are made of.

use vstd::prelude::*;
use crate::address::Address;
use crate::channel::arith::{abs_i64_to_u64, signed_difference, subtract_u64_to_i64};
use crate::channel::state::ChannelError;
use crate::ledger::Account;

verus! {

/// The addresses of the two parties, as plain values.
pub open spec fn parties(users: [Address; 2]) -> Seq<Seq<u8>> {
    users@.map_values(|user: Address| user@)
}

/// The place of `who` among `users`: the first that matches, if any does.
pub open spec fn place_of(users: Seq<Seq<u8>>, who: Seq<u8>) -> Option<int> {
    if users[0] == who {
        Some(0)
    } else if users[1] == who {
        Some(1)
    } else {
        None
    }
}

/// Finds the place of `user` among the parties.
///
/// Fails with `NotUser` exactly when `user` is neither of them.
pub fn find_user_index(users: [Address; 2], user: &Address) -> (r: Result<usize, ChannelError>)
    ensures
        match place_of(parties(users), user@) {
            Some(i) => r == Ok::<usize, ChannelError>(i as usize),
            None => r == Err::<usize, ChannelError>(ChannelError::NotUser),
        },
{
    if users[0] == *user {
        Ok(0)
    } else if users[1] == *user {
        Ok(1)
    } else {
        Err(ChannelError::NotUser)
    }
}

/// Checks that `user` is one of the parties.
///
/// Fails with `NotUser` exactly when it is neither of them.
pub fn verify_user(users: [Address; 2], user: &Address) -> (r: Result<(), ChannelError>)
    ensures
        r == (if place_of(parties(users), user@) is Some {
            Ok::<(), ChannelError>(())
        } else {
            Err::<(), ChannelError>(ChannelError::NotUser)
        }),
{
    if users[0] == *user || users[1] == *user {
        Ok(())
    } else {
        Err(ChannelError::NotUser)
    }
}

/// What both parties are owed together under the split `balances`.
pub open spec fn owed_under(balances: Seq<u64>) -> int {
    balances[0] + balances[1]
}

/// What the treasury is funded with when a channel is opened: what both
/// parties are owed, and the reserve that keeps the treasury account alive.
pub open spec fn total_needed(balances: Seq<u64>, reserve: u64) -> int {
    owed_under(balances) + reserve
}

/// The balance that the treasury needs for `balances` beside a reserve of
/// `reserve`.
///
/// Fails with `BalanceOverflow` exactly when the sum does not fit in 64 bits.
pub fn calculate_total_balance_needed(balances: [u64; 2], reserve: u64) -> (r: Result<
    u64,
    ChannelError,
>)
    ensures
        r == (if total_needed(balances@, reserve) <= u64::MAX {
            Ok::<u64, ChannelError>(total_needed(balances@, reserve) as u64)
        } else {
            Err::<u64, ChannelError>(ChannelError::BalanceOverflow)
        }),
{
    match balances[0].checked_add(balances[1]) {
        Some(balance_required) => match balance_required.checked_add(reserve) {
            Some(total) => Ok(total),
            None => Err(ChannelError::BalanceOverflow),
        },
        None => Err(ChannelError::BalanceOverflow),
    }
}

/// By how much a treasury that holds `lamports` falls short of what both
/// parties are owed under `balances`; negative where it holds more. `None`
/// where the sum of the balances, or the difference, leaves its range.
pub open spec fn shortfall(lamports: u64, balances: Seq<u64>) -> Option<i64> {
    if owed_under(balances) <= u64::MAX {
        signed_difference(owed_under(balances) as u64, lamports)
    } else {
        None
    }
}

/// By how much the treasury falls short of what both parties are owed, as a
/// signed amount: negative where the treasury holds more.
///
/// Fails with `BalanceOverflow` exactly when the sum of the balances does
/// not fit in 64 bits, or the difference does not fit in 64 signed bits.
pub fn calculate_extra_balance_needed(treasury: &Account, balances: [u64; 2]) -> (r: Result<
    i64,
    ChannelError,
>)
    ensures
        r == match shortfall(treasury.lamports, balances@) {
            Some(d) => Ok::<i64, ChannelError>(d),
            None => Err::<i64, ChannelError>(ChannelError::BalanceOverflow),
        },
{
    match calculate_total_balance_needed(balances, 0) {
        Ok(owed) => subtract_u64_to_i64(owed, treasury.lamports),
        Err(_) => Err(ChannelError::BalanceOverflow),
    }
}

/// Whether a treasury that holds `lamports` covers `balances`, and if not,
/// why not: `BalanceOverflow` where the sum of the balances leaves 64 bits,
/// `InsufficientBalance` where the treasury holds less than the sum.
pub open spec fn coverage(lamports: u64, balances: Seq<u64>) -> Result<(), ChannelError> {
    if owed_under(balances) > u64::MAX {
        Err(ChannelError::BalanceOverflow)
    } else if owed_under(balances) <= lamports {
        Ok(())
    } else {
        Err(ChannelError::InsufficientBalance)
    }
}

/// Checks that the treasury covers `balances`: that it holds at least what
/// both parties would be owed.
///
/// Fails with `BalanceOverflow` exactly when the sum of the balances does
/// not fit in 64 bits, and else with `InsufficientBalance` exactly when the
/// treasury holds less than the sum.
pub fn verify_balances(treasury: &Account, balances: [u64; 2]) -> (r: Result<(), ChannelError>)
    ensures
        r == coverage(treasury.lamports, balances@),
{
    match calculate_total_balance_needed(balances, 0) {
        Ok(owed) => if treasury.lamports >= owed {
            Ok(())
        } else {
            Err(ChannelError::InsufficientBalance)
        },
        Err(e) => Err(e),
    }
}

/// What a treasury that holds `lamports` holds beyond what both parties are
/// owed under `balances`: nothing where it holds no more than that, and
/// `BalanceOverflow` where the sum of the balances leaves 64 bits or the
/// surplus leaves the signed range.
pub open spec fn surplus(lamports: u64, balances: Seq<u64>) -> Result<u64, ChannelError> {
    if owed_under(balances) > u64::MAX {
        Err(ChannelError::BalanceOverflow)
    } else if lamports <= owed_under(balances) {
        Ok(0)
    } else if lamports - owed_under(balances) > i64::MAX {
        Err(ChannelError::BalanceOverflow)
    } else {
        Ok((lamports - owed_under(balances)) as u64)
    }
}

/// What the treasury holds beyond what both parties are owed.
///
/// Nothing where the treasury holds exactly or less than what is owed. Fails
/// with `BalanceOverflow` exactly when the sum of the balances does not fit
/// in 64 bits, or the treasury holds more and the surplus does not fit in 63
/// bits.
pub fn calculate_excess_balance(treasury: &Account, balances: [u64; 2]) -> (r: Result<
    u64,
    ChannelError,
>)
    ensures
        r == surplus(treasury.lamports, balances@),
{
    let owed: u64 = match calculate_total_balance_needed(balances, 0) {
        Ok(owed) => owed,
        Err(e) => {
            return Err(e);
        },
    };
    if treasury.lamports <= owed {
        return Ok(0);
    }
    match calculate_extra_balance_needed(treasury, balances) {
        Ok(balance_needed) => abs_i64_to_u64(balance_needed),
        Err(e) => Err(e),
    }
}

/// Why value cannot move from one account to another, if it cannot.
pub open spec fn transfer_refusal(from: u64, to: u64, lamports: u64) -> Option<ChannelError> {
    if from < lamports {
        Some(ChannelError::InsufficientBalance)
    } else if to + lamports > u64::MAX {
        Some(ChannelError::BalanceOverflow)
    } else {
        None
    }
}

/// Moves `lamports` out of the treasury to `to`.
///
/// Fails with `InsufficientBalance` where the treasury holds less, and with
/// `BalanceOverflow` where the receiver cannot hold more; then neither
/// account changes.
pub fn transfer_from_treasury(treasury: &mut Account, to: &mut Account, lamports: u64) -> (r:
    Result<(), ChannelError>)
    ensures
        match transfer_refusal(old(treasury).lamports, old(to).lamports, lamports) {
            Some(e) => {
                &&& r == Err::<(), ChannelError>(e)
                &&& *final(treasury) == *old(treasury)
                &&& *final(to) == *old(to)
            },
            None => {
                &&& r is Ok
                &&& *final(treasury) == (Account {
                    lamports: (old(treasury).lamports - lamports) as u64,
                    ..*old(treasury)
                })
                &&& *final(to) == (Account {
                    lamports: (old(to).lamports + lamports) as u64,
                    ..*old(to)
                })
            },
        },
{
    if treasury.lamports < lamports {
        return Err(ChannelError::InsufficientBalance);
    }
    match to.lamports.checked_add(lamports) {
        None => Err(ChannelError::BalanceOverflow),
        Some(credited) => {
            to.lamports = credited;
            treasury.lamports = treasury.lamports - lamports;
            Ok(())
        },
    }
}

} // verus!
