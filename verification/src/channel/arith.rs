//! Checked arithmetic on amounts.

use vstd::prelude::*;
use crate::channel::state::ChannelError;

verus! {

/// `a - b` as a signed number, where it fits in 64 bits.
pub open spec fn signed_difference(a: u64, b: u64) -> Option<i64> {
    if i64::MIN <= a - b <= i64::MAX {
        Some((a - b) as i64)
    } else {
        None
    }
}

/// The difference `a - b` of two unsigned amounts as a signed one.
///
/// Fails with `BalanceOverflow` exactly when the difference lies outside the
/// signed 64-bit range; the least signed number itself is a result.
pub fn subtract_u64_to_i64(a: u64, b: u64) -> (r: Result<i64, ChannelError>)
    ensures
        r == match signed_difference(a, b) {
            Some(d) => Ok::<i64, ChannelError>(d),
            None => Err::<i64, ChannelError>(ChannelError::BalanceOverflow),
        },
        i64::MIN <= a - b <= i64::MAX ==> r == Ok::<i64, ChannelError>((a - b) as i64),
{
    if a >= b {
        let ans: u64 = a - b;
        if ans > i64::MAX as u64 {
            Err(ChannelError::BalanceOverflow)
        } else {
            Ok(ans as i64)
        }
    } else {
        let abs_ans: u64 = b - a;
        if abs_ans > i64::MAX as u64 + 1 {
            Err(ChannelError::BalanceOverflow)
        } else if abs_ans == i64::MAX as u64 + 1 {
            Ok(i64::MIN)
        } else {
            Ok(-(abs_ans as i64))
        }
    }
}

/// The magnitude of `a`.
pub open spec fn magnitude(a: i64) -> int {
    if a < 0 {
        -a
    } else {
        a as int
    }
}

/// The absolute value of a signed amount.
///
/// Fails with `BalanceOverflow` exactly on the least signed number, whose
/// magnitude has no signed counterpart.
pub fn abs_i64_to_u64(a: i64) -> (r: Result<u64, ChannelError>)
    ensures
        r == (if a == i64::MIN {
            Err::<u64, ChannelError>(ChannelError::BalanceOverflow)
        } else {
            Ok::<u64, ChannelError>(magnitude(a) as u64)
        }),
{
    if a == i64::MIN {
        Err(ChannelError::BalanceOverflow)
    } else if a < 0 {
        Ok((-a) as u64)
    } else {
        Ok(a as u64)
    }
}

} // verus!
