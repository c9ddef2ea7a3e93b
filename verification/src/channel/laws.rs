//! What holds of a channel whatever is done to it.
//!
//! The laws are stated over [`Custody`], the channel with its treasury, and
//! over [`run`], which applies any sequence of operations to it. The
//! operations themselves promise to act as [`apply`] says.

use vstd::prelude::*;
use crate::channel::model::{
    deposit_refusal, excess, exit_outcome, exit_refusal, open_refusal, opened, reclaim_refusal,
    withdraw_outcome, withdraw_refusal, withdrawn, Custody,
};
use crate::channel::rules::total_needed;
use crate::channel::state::{ChannelError, PendingState};

verus! {

/// One call of an operation on an open channel, with all that decides how
/// it ends. `holds` is what the caller's own account holds at the call.
pub enum Operation {
    /// A call of `challenge_exit`.
    Propose { caller: Seq<u8>, balances: Seq<u64>, nonce: u64, now: u64 },
    /// A call of `withdraw`.
    Withdraw { caller: Seq<u8>, holds: u64, now: u64 },
    /// A call of `deposit_treasury`.
    Deposit { holds: u64, lamports: u64 },
    /// A call of `withdraw_excess_treasury_authority`.
    Reclaim { caller: Seq<u8>, holds: u64 },
}

/// Whether the call is refused.
pub open spec fn refused(s: Custody, op: Operation) -> bool {
    match op {
        Operation::Propose { caller, balances, nonce, now } => exit_refusal(
            s,
            caller,
            balances,
            nonce,
            now,
        ) is Some,
        Operation::Withdraw { caller, holds, now } => withdraw_refusal(s, caller, holds, now)
            is Some,
        Operation::Deposit { holds, lamports } => deposit_refusal(s.treasury, holds, lamports)
            is Some,
        Operation::Reclaim { caller, holds } => reclaim_refusal(s, caller, holds) is Some,
    }
}

/// The channel and its treasury after the call: as before where the call is
/// refused.
pub open spec fn apply(s: Custody, op: Operation) -> Custody {
    if refused(s, op) {
        s
    } else {
        match op {
            Operation::Propose { caller, balances, nonce, now } => Custody {
                channel: exit_outcome(s.channel, caller, balances, nonce, now),
                ..s
            },
            Operation::Withdraw { caller, holds, now } => withdraw_outcome(s, caller),
            Operation::Deposit { holds, lamports } => Custody {
                treasury: (s.treasury + lamports) as u64,
                ..s
            },
            Operation::Reclaim { caller, holds } => Custody {
                treasury: (s.treasury - excess(s)) as u64,
                ..s
            },
        }
    }
}

/// The channel and its treasury after the calls `ops`, one after the other.
pub open spec fn run(s: Custody, ops: Seq<Operation>) -> Custody
    decreases ops.len(),
{
    if ops.len() == 0 {
        s
    } else {
        apply(run(s, ops.drop_last()), ops.last())
    }
}

/// Opening a channel leaves a valid record and a treasury that holds what
/// both parties are owed, and the reserve besides.
pub proof fn lemma_opening_is_sound(
    treasury_key: Seq<u8>,
    treasury_owner: Seq<u8>,
    treasury_lamports: u64,
    treasury_data_len: nat,
    funds: u64,
    program_id: Seq<u8>,
    derived: Option<(Seq<u8>, u8)>,
    authority: Seq<u8>,
    users: Seq<Seq<u8>>,
    balances: Seq<u64>,
    challenge_period: u64,
    expires_at: u64,
    now: u64,
    reserve: u64,
    bump_seed: u8,
)
    requires
        users.len() == 2,
        balances.len() == 2,
        open_refusal(
            treasury_key,
            treasury_owner,
            treasury_lamports,
            treasury_data_len,
            funds,
            program_id,
            derived,
            users,
            balances,
            challenge_period,
            expires_at,
            now,
            reserve,
        ) is None,
    ensures
        ({
            let channel = opened(
                authority,
                users,
                balances,
                challenge_period,
                expires_at,
                bump_seed,
                (derived->0).1,
            );
            let s = Custody { channel, treasury: total_needed(balances, reserve) as u64 };
            &&& channel.valid()
            &&& channel.expires_at > now
            &&& s.solvent()
            &&& s.treasury == channel.owed() + reserve
        }),
{
}

/// Solvency: no call makes the treasury hold less than both parties are
/// owed.
pub proof fn lemma_step_keeps_solvency(s: Custody, op: Operation)
    requires
        s.channel.shaped(),
        s.solvent(),
    ensures
        apply(s, op).solvent(),
{
    match op {
        Operation::Propose { caller, balances, nonce, now } => {},
        Operation::Withdraw { caller, holds, now } => {},
        Operation::Deposit { holds, lamports } => {},
        Operation::Reclaim { caller, holds } => {},
    }
}

/// No call changes the shape of the record, and a valid record stays valid.
pub proof fn lemma_step_keeps_validity(s: Custody, op: Operation)
    requires
        s.channel.shaped(),
        op matches Operation::Propose { balances, .. } ==> balances.len() == 2,
    ensures
        apply(s, op).channel.shaped(),
        s.channel.valid() ==> apply(s, op).channel.valid(),
{
}

/// No call changes the terms that were fixed when the channel was opened:
/// the authority, the parties, the challenge period and the bump seeds.
pub proof fn lemma_step_keeps_terms(s: Custody, op: Operation)
    ensures
        apply(s, op).channel.same_terms(s.channel),
{
}

/// No call lowers the nonce; only a proposal can raise it, and no call but a
/// proposal moves the expiry time.
pub proof fn lemma_step_keeps_nonce(s: Custody, op: Operation)
    ensures
        apply(s, op).channel.nonce >= s.channel.nonce,
        !(op is Propose) ==> apply(s, op).channel.nonce == s.channel.nonce,
        !(op is Propose) ==> apply(s, op).channel.expires_at == s.channel.expires_at,
        !(op is Propose) ==> apply(s, op).channel.pending == s.channel.pending,
{
}

/// Well-formed calls: every proposal names two balances.
pub open spec fn well_formed(ops: Seq<Operation>) -> bool {
    forall|i: int|
        0 <= i < ops.len() ==> (#[trigger] ops[i] matches Operation::Propose { balances, .. }
            ==> balances.len() == 2)
}

/// Solvency, of every state that can be reached: after any sequence of
/// calls the treasury still holds at least what both parties are owed.
pub proof fn lemma_solvent_forever(s: Custody, ops: Seq<Operation>)
    requires
        s.channel.shaped(),
        s.solvent(),
        well_formed(ops),
    ensures
        run(s, ops).channel.shaped(),
        run(s, ops).solvent(),
    decreases ops.len(),
{
    if ops.len() > 0 {
        let before = ops.drop_last();
        assert(well_formed(before)) by {
            assert forall|i: int| 0 <= i < before.len() implies (#[trigger] before[i] matches Operation::Propose {
                balances,
                ..
            } ==> balances.len() == 2) by {
                assert(before[i] == ops[i]);
            }
        }
        lemma_solvent_forever(s, before);
        lemma_step_keeps_validity(run(s, before), ops.last());
        lemma_step_keeps_solvency(run(s, before), ops.last());
    }
}

/// A valid channel stays valid, and keeps its terms, through any sequence of
/// calls.
pub proof fn lemma_valid_forever(s: Custody, ops: Seq<Operation>)
    requires
        s.channel.valid(),
        well_formed(ops),
    ensures
        run(s, ops).channel.valid(),
        run(s, ops).channel.same_terms(s.channel),
    decreases ops.len(),
{
    if ops.len() > 0 {
        let before = ops.drop_last();
        assert(well_formed(before)) by {
            assert forall|i: int| 0 <= i < before.len() implies (#[trigger] before[i] matches Operation::Propose {
                balances,
                ..
            } ==> balances.len() == 2) by {
                assert(before[i] == ops[i]);
            }
        }
        lemma_valid_forever(s, before);
        lemma_step_keeps_validity(run(s, before), ops.last());
        lemma_step_keeps_terms(run(s, before), ops.last());
    }
}

/// The nonce never decreases, whatever is called and in whatever order.
pub proof fn lemma_nonce_never_decreases(s: Custody, ops: Seq<Operation>)
    ensures
        run(s, ops).channel.nonce >= s.channel.nonce,
    decreases ops.len(),
{
    if ops.len() > 0 {
        lemma_nonce_never_decreases(s, ops.drop_last());
        lemma_step_keeps_nonce(run(s, ops.drop_last()), ops.last());
    }
}

/// Every state that can be reached from an opened channel is sound: the
/// record is valid with the terms it was opened with, the treasury holds at
/// least what both parties are owed, and the nonce is not below the one it
/// started with.
pub proof fn lemma_reachable_states_are_sound(opened: Custody, ops: Seq<Operation>)
    requires
        opened.channel.valid(),
        opened.solvent(),
        well_formed(ops),
    ensures
        run(opened, ops).channel.valid(),
        run(opened, ops).solvent(),
        run(opened, ops).channel.same_terms(opened.channel),
        run(opened, ops).channel.nonce >= opened.channel.nonce,
{
    lemma_valid_forever(opened, ops);
    lemma_solvent_forever(opened, ops);
    lemma_nonce_never_decreases(opened, ops);
}

/// Once a channel has expired, no proposal changes it any more: what is
/// committed then is what the parties can withdraw.
pub proof fn lemma_expired_channel_is_settled(s: Custody, op: Operation)
    requires
        op matches Operation::Propose { now, .. } && now >= s.channel.expires_at,
    ensures
        apply(s, op) == s,
{
}

/// There is one slot: after a proposal that is not refused it is empty, or
/// it holds that very proposal and nothing of what was there before.
pub proof fn lemma_single_pending(
    s: Custody,
    caller: Seq<u8>,
    balances: Seq<u64>,
    nonce: u64,
    now: u64,
)
    requires
        exit_refusal(s, caller, balances, nonce, now) is None,
    ensures
        ({
            let after = exit_outcome(s.channel, caller, balances, nonce, now);
            ||| after.pending == PendingState::Empty
            ||| after.pending == (PendingState::Proposed { proposer: caller, balances, nonce })
        }),
{
}

/// Agreement. A proposal that is not refused commits a split exactly when
/// another party has the same balances and nonce pending. Where it commits,
/// two different parties have named that split, its nonce is above the one
/// committed before, and balances, nonce and expiry are the new ones. Where
/// it does not, the committed balances, nonce and expiry stay as they were.
pub proof fn lemma_agreement(
    s: Custody,
    caller: Seq<u8>,
    balances: Seq<u64>,
    nonce: u64,
    now: u64,
)
    requires
        exit_refusal(s, caller, balances, nonce, now) is None,
    ensures
        ({
            let after = exit_outcome(s.channel, caller, balances, nonce, now);
            let agreed = s.channel.confirmed_by(caller, balances, nonce);
            &&& after.nonce != s.channel.nonce <==> agreed
            &&& agreed ==> {
                &&& s.channel.pending == (PendingState::Proposed {
                    proposer: s.channel.pending->proposer,
                    balances,
                    nonce,
                })
                &&& s.channel.pending->proposer != caller
                &&& s.channel.is_party(caller)
                &&& s.channel.is_party(s.channel.pending->proposer)
                &&& nonce > s.channel.nonce
                &&& after.balances == balances
                &&& after.nonce == nonce
                &&& after.expires_at == now + s.channel.challenge_period
                &&& after.pending == PendingState::Empty
            }
            &&& !agreed ==> {
                &&& after.balances == s.channel.balances
                &&& after.nonce == s.channel.nonce
                &&& after.expires_at == s.channel.expires_at
            }
        }),
{
}

/// Agreement, over two calls. After `first` has put its proposal in the
/// slot, the next proposal commits exactly when it comes from another party
/// and names the same balances and nonce.
pub proof fn lemma_second_call_decides(
    s: Custody,
    first: Seq<u8>,
    first_balances: Seq<u64>,
    first_nonce: u64,
    first_now: u64,
    second: Seq<u8>,
    second_balances: Seq<u64>,
    second_nonce: u64,
    second_now: u64,
)
    requires
        exit_refusal(s, first, first_balances, first_nonce, first_now) is None,
        !s.channel.confirmed_by(first, first_balances, first_nonce),
        exit_refusal(
            Custody {
                channel: exit_outcome(s.channel, first, first_balances, first_nonce, first_now),
                ..s
            },
            second,
            second_balances,
            second_nonce,
            second_now,
        ) is None,
    ensures
        ({
            let waiting = exit_outcome(s.channel, first, first_balances, first_nonce, first_now);
            let after = exit_outcome(waiting, second, second_balances, second_nonce, second_now);
            let matching = second != first && second_balances == first_balances && second_nonce
                == first_nonce;
            &&& waiting.nonce == s.channel.nonce
            &&& waiting.balances == s.channel.balances
            &&& matching ==> after.balances == first_balances && after.nonce == first_nonce
                && after.pending == PendingState::Empty
            &&& !matching ==> after.balances == s.channel.balances && after.nonce
                == s.channel.nonce && after.pending == (PendingState::Proposed {
                proposer: second,
                balances: second_balances,
                nonce: second_nonce,
            })
        }),
{
}

/// Idempotence. A party that has withdrawn can withdraw again at any later
/// time: the second call is not refused, pays nothing and changes nothing.
pub proof fn lemma_withdraw_twice(
    s: Custody,
    caller: Seq<u8>,
    holds: u64,
    now: u64,
    holds_later: u64,
    later: u64,
)
    requires
        s.channel.shaped(),
        withdraw_refusal(s, caller, holds, now) is None,
        now <= later,
    ensures
        ({
            let once = withdraw_outcome(s, caller);
            &&& withdraw_refusal(once, caller, holds_later, later) is None
            &&& withdrawn(once.channel, caller) == 0
            &&& withdraw_outcome(once, caller) == once
        }),
{
    let once = withdraw_outcome(s, caller);
    let i = s.channel.index_of(caller);
    assert(once.channel.balances.update(i, 0) =~= once.channel.balances);
}

/// The expiry gate. Before the expiry time every withdrawal is refused with
/// `NotExpired`; from the expiry time on every proposal is refused with
/// `Expired`. Neither depends on who calls or with what.
pub proof fn lemma_expiry_gate(
    s: Custody,
    caller: Seq<u8>,
    holds: u64,
    balances: Seq<u64>,
    nonce: u64,
    now: u64,
)
    ensures
        now < s.channel.expires_at ==> withdraw_refusal(s, caller, holds, now) == Some(
            ChannelError::NotExpired,
        ),
        now >= s.channel.expires_at ==> exit_refusal(s, caller, balances, nonce, now) == Some(
            ChannelError::Expired,
        ),
        now >= s.channel.expires_at ==> withdraw_refusal(s, caller, holds, now) != Some(
            ChannelError::NotExpired,
        ),
        now < s.channel.expires_at ==> exit_refusal(s, caller, balances, nonce, now) != Some(
            ChannelError::Expired,
        ),
{
}

/// A withdrawal pays the caller exactly what the treasury loses, and takes
/// nothing from what the other party is owed.
pub proof fn lemma_withdrawal_is_exact(s: Custody, caller: Seq<u8>, holds: u64, now: u64)
    requires
        s.channel.valid(),
        withdraw_refusal(s, caller, holds, now) is None,
    ensures
        ({
            let after = withdraw_outcome(s, caller);
            let i = s.channel.index_of(caller);
            &&& s.treasury - after.treasury == s.channel.balances[i]
            &&& after.channel.balances[i] == 0
            &&& after.channel.balances[1 - i] == s.channel.balances[1 - i]
            &&& s.channel.users[i] == caller
        }),
{
}

/// Taking the excess leaves the treasury with exactly what both parties are
/// owed, where it held more; where it held that or less, nothing moves.
pub proof fn lemma_reclaim_is_exact(s: Custody, caller: Seq<u8>, holds: u64)
    requires
        reclaim_refusal(s, caller, holds) is None,
    ensures
        s.treasury > s.channel.owed() ==> excess(s) == s.treasury - s.channel.owed()
            && apply(s, Operation::Reclaim { caller, holds }).treasury == s.channel.owed(),
        s.treasury <= s.channel.owed() ==> excess(s) == 0 && apply(
            s,
            Operation::Reclaim { caller, holds },
        ) == s,
{
}

/// Coverage. A proposal by a party, before the expiry time and with a nonce
/// above the committed one, is refused for what the treasury holds exactly
/// when the treasury holds less than the sum of the proposed balances, or
/// that sum leaves 64 bits. No reserve is asked for.
pub proof fn lemma_coverage_is_the_plain_sum(
    s: Custody,
    caller: Seq<u8>,
    balances: Seq<u64>,
    nonce: u64,
    now: u64,
)
    requires
        now < s.channel.expires_at,
        nonce > s.channel.nonce,
    ensures
        balances[0] + balances[1] > u64::MAX ==> exit_refusal(s, caller, balances, nonce, now)
            == Some(ChannelError::BalanceOverflow),
        s.treasury < balances[0] + balances[1] <= u64::MAX ==> exit_refusal(
            s,
            caller,
            balances,
            nonce,
            now,
        ) == Some(ChannelError::InsufficientBalance),
        balances[0] + balances[1] <= s.treasury && !s.channel.is_party(caller) ==> exit_refusal(
            s,
            caller,
            balances,
            nonce,
            now,
        ) == Some(ChannelError::NotUser),
        balances[0] + balances[1] <= s.treasury && s.channel.is_party(caller)
            && !s.channel.confirmed_by(caller, balances, nonce) ==> exit_refusal(
            s,
            caller,
            balances,
            nonce,
            now,
        ) is None,
        balances[0] + balances[1] <= s.treasury && s.channel.is_party(caller)
            && s.channel.confirmed_by(caller, balances, nonce) && s.channel.is_party(
            s.channel.pending->proposer,
        ) ==> exit_refusal(s, caller, balances, nonce, now) == (if now + s.channel.challenge_period
            > u64::MAX {
            Some(ChannelError::ExpiresAtOverflow)
        } else {
            None
        }),
{
}

} // verus!
