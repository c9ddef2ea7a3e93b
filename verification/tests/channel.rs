use chain_programs::address::Address;
use chain_programs::channel::arith::{abs_i64_to_u64, subtract_u64_to_i64};
use chain_programs::channel::model::Failure;
use chain_programs::channel::ops::{
    challenge_exit, deposit_treasury, initialize, initialize_derived, transfer_to_treasury,
    treasury_address, withdraw, withdraw_excess_treasury_authority, ChallengeExit,
    DepositTreasury, Initialize, Substrate, Withdraw, WithdrawExcessTreasuryAuthority,
    CHANNEL_SEED, TREASURY_SEED,
};
use chain_programs::channel::rules::{
    calculate_excess_balance, calculate_extra_balance_needed, calculate_total_balance_needed,
    find_user_index, transfer_from_treasury, verify_balances, verify_user,
};
use chain_programs::channel::state::{Channel, ChannelError, Pending};
use chain_programs::ledger::{Account, ProgramError};

const NOW: u64 = 1_000;
const RESERVE: u64 = 890_880;

fn addr(tag: u8) -> Address {
    let mut bytes = [0u8; 32];
    bytes[0] = tag;
    bytes[31] = tag;
    Address::new(bytes)
}

fn program_id() -> Address {
    addr(200)
}

fn wallet(key: Address, lamports: u64) -> Account {
    Account { key, owner: Address::default(), is_signer: true, lamports, data: Vec::new() }
}

fn fresh_treasury() -> Account {
    let (key, _) = treasury_address(&program_id()).expect("the program has a treasury address");
    Account { key, owner: Address::default(), is_signer: false, lamports: 0, data: Vec::new() }
}

fn substrate(now: u64, reserve: u64) -> Substrate {
    Substrate { program_id: program_id(), now, minimum_reserve: reserve }
}

/// A channel between parties 1 and 2 with balances [100, 50], a challenge
/// period of 60 that expires at NOW + 60, and no reserve.
fn open_channel() -> (Channel, Account) {
    let mut ctx = Initialize {
        channel: Channel::new(),
        treasury: fresh_treasury(),
        authority: wallet(addr(9), 10_000),
        bump: 254,
    };
    let r = initialize(&mut ctx, &substrate(NOW, 0), [addr(1), addr(2)], [100, 50], 60, NOW + 60);
    assert_eq!(r, Ok(()));
    (ctx.channel, ctx.treasury)
}

fn propose(
    channel: &mut Channel,
    treasury: &Account,
    who: Address,
    balances: [u64; 2],
    nonce: u64,
    now: u64,
) -> Result<(), Failure> {
    let mut ctx =
        ChallengeExit { channel: *channel, treasury: treasury.clone(), user: wallet(who, 5) };
    let r = challenge_exit(&mut ctx, now, balances, nonce);
    assert_eq!(&ctx.treasury, treasury);
    assert_eq!(ctx.user, wallet(who, 5));
    *channel = ctx.channel;
    r
}

#[test]
fn seeds_spell_their_names() {
    assert_eq!(&CHANNEL_SEED[..], b"channel");
    assert_eq!(&TREASURY_SEED[..], b"treasury");
}

#[test]
fn treasury_address_is_the_derived_program_address() {
    let id = program_id();
    let (key, bump) = treasury_address(&id).expect("an address exists");
    let (expected, expected_bump) = solana_program::pubkey::Pubkey::find_program_address(
        &[b"treasury"],
        &solana_program::pubkey::Pubkey::new_from_array(id.to_bytes()),
    );
    assert_eq!(key.to_bytes(), expected.to_bytes());
    assert_eq!(bump, expected_bump);
    assert_ne!(key, id);
    assert_eq!(treasury_address(&id), Some((key, bump)));
    assert_ne!(treasury_address(&addr(201)).map(|found| found.0), Some(key));
}

#[test]
fn initialize_fills_record_and_funds_treasury() {
    let mut ctx = Initialize {
        channel: Channel::new(),
        treasury: fresh_treasury(),
        authority: wallet(addr(9), 2_000_000),
        bump: 254,
    };
    let (key, bump) = treasury_address(&program_id()).unwrap();
    let r = initialize(
        &mut ctx,
        &substrate(NOW, RESERVE),
        [addr(1), addr(2)],
        [100, 50],
        60,
        NOW + 60,
    );
    assert_eq!(r, Ok(()));
    assert_eq!(
        ctx.channel,
        Channel {
            authority: addr(9),
            users: [addr(1), addr(2)],
            balances: [100, 50],
            challenge_period: 60,
            expires_at: NOW + 60,
            nonce: 0,
            pending: Pending::Empty,
            bump_seed: 254,
            treasury_bump_seed: bump,
        }
    );
    assert_eq!(ctx.treasury.lamports, 150 + RESERVE);
    assert_eq!(ctx.treasury.owner, program_id());
    assert_eq!(ctx.treasury.key, key);
    assert_eq!(ctx.authority.lamports, 2_000_000 - 150 - RESERVE);
    assert!(ctx.treasury.lamports >= ctx.channel.balances[0] + ctx.channel.balances[1]);
}

#[test]
fn initialize_refusals_in_order() {
    let base = Initialize {
        channel: Channel::new(),
        treasury: fresh_treasury(),
        authority: wallet(addr(9), 1_000),
        bump: 1,
    };
    let s = substrate(NOW, 10);
    let users = [addr(1), addr(2)];

    let mut ctx = base.clone();
    assert_eq!(
        initialize(&mut ctx, &s, [addr(1), addr(1)], [1, 2], 0, 0),
        Err(Failure::Channel(ChannelError::DuplicateUsers))
    );
    assert_eq!(ctx, base);

    assert_eq!(
        initialize(&mut ctx, &s, users, [1, 2], 0, NOW + 1),
        Err(Failure::Channel(ChannelError::InvalidChallengePeriod))
    );
    assert_eq!(
        initialize(&mut ctx, &s, users, [1, 2], 60, NOW),
        Err(Failure::Channel(ChannelError::InvalidChallengePeriod))
    );
    assert_eq!(ctx, base);

    let mut foreign = base.clone();
    foreign.treasury.owner = addr(77);
    foreign.treasury.lamports = 5;
    assert_eq!(
        initialize(&mut foreign, &s, users, [1, 2], 60, NOW + 1),
        Err(Failure::Program(ProgramError::IllegalOwner))
    );

    let mut funded = base.clone();
    funded.treasury.lamports = 1;
    assert_eq!(
        initialize(&mut funded, &s, users, [u64::MAX, 2], 60, NOW + 1),
        Err(Failure::Program(ProgramError::AccountAlreadyInitialized))
    );
    let mut with_data = base.clone();
    with_data.treasury.owner = program_id();
    with_data.treasury.data = vec![0];
    assert_eq!(
        initialize(&mut with_data, &s, users, [1, 2], 60, NOW + 1),
        Err(Failure::Program(ProgramError::AccountAlreadyInitialized))
    );

    let mut elsewhere = base.clone();
    elsewhere.treasury.key = addr(3);
    assert_eq!(
        initialize(&mut elsewhere, &s, users, [u64::MAX, 1], 60, NOW + 1),
        Err(Failure::Channel(ChannelError::BalanceOverflow))
    );
    assert_eq!(
        initialize(&mut elsewhere, &s, users, [u64::MAX - 10, 1], 60, NOW + 1),
        Err(Failure::Channel(ChannelError::BalanceOverflow))
    );
    assert_eq!(
        initialize(&mut elsewhere, &s, users, [1, 2], 60, NOW + 1),
        Err(Failure::Program(ProgramError::InvalidArgument))
    );

    assert_eq!(
        initialize(&mut ctx, &s, users, [900, 91], 60, NOW + 1),
        Err(Failure::Program(ProgramError::InsufficientFunds))
    );
    assert_eq!(ctx, base);
    assert_eq!(initialize(&mut ctx, &s, users, [900, 90], 60, NOW + 1), Ok(()));
    assert_eq!(ctx.authority.lamports, 0);
    assert_eq!(ctx.treasury.lamports, 1_000);
}

#[test]
fn initialize_derived_takes_the_address_it_is_given() {
    let mut ctx = Initialize {
        channel: Channel::new(),
        treasury: wallet(addr(3), 0),
        authority: wallet(addr(9), 1_000),
        bump: 7,
    };
    ctx.treasury.is_signer = false;
    let s = substrate(NOW, 1);
    let users = [addr(1), addr(2)];
    let before = ctx.clone();
    assert_eq!(
        initialize_derived(&mut ctx, &s, None, users, [1, 2], 60, NOW + 1),
        Err(Failure::Program(ProgramError::InvalidArgument))
    );
    assert_eq!(
        initialize_derived(&mut ctx, &s, Some((addr(4), 250)), users, [1, 2], 60, NOW + 1),
        Err(Failure::Program(ProgramError::InvalidArgument))
    );
    assert_eq!(ctx, before);
    assert_eq!(
        initialize_derived(&mut ctx, &s, Some((addr(3), 250)), users, [1, 2], 60, NOW + 1),
        Ok(())
    );
    assert_eq!(ctx.channel.treasury_bump_seed, 250);
    assert_eq!(ctx.channel.bump_seed, 7);
    assert_eq!(ctx.treasury.lamports, 4);
    assert_eq!(ctx.authority.lamports, 996);
}

#[test]
fn scenario_two_matching_proposals_commit() {
    let (mut channel, treasury) = open_channel();
    assert_eq!(treasury.lamports, 150);

    assert_eq!(propose(&mut channel, &treasury, addr(1), [80, 70], 1, NOW + 10), Ok(()));
    assert_eq!(channel.balances, [100, 50]);
    assert_eq!(channel.nonce, 0);
    assert_eq!(channel.expires_at, NOW + 60);
    assert_eq!(
        channel.pending,
        Pending::Proposed { proposer: addr(1), balances: [80, 70], nonce: 1 }
    );

    assert_eq!(propose(&mut channel, &treasury, addr(2), [80, 70], 1, NOW + 20), Ok(()));
    assert_eq!(channel.balances, [80, 70]);
    assert_eq!(channel.nonce, 1);
    assert_eq!(channel.expires_at, NOW + 20 + 60);
    assert_eq!(channel.pending, Pending::Empty);
    assert_eq!(channel.users, [addr(1), addr(2)]);
    assert_eq!(channel.authority, addr(9));
    assert_eq!(channel.challenge_period, 60);
}

#[test]
fn scenario_uncovered_split_is_rejected() {
    let (mut channel, treasury) = open_channel();
    assert_eq!(treasury.lamports, 150);
    let before = channel;
    assert_eq!(
        propose(&mut channel, &treasury, addr(1), [200, 0], 1, NOW + 1),
        Err(Failure::Channel(ChannelError::InsufficientBalance))
    );
    assert_eq!(channel, before);
    assert_eq!(treasury.lamports, 150);
    assert_eq!(propose(&mut channel, &treasury, addr(1), [150, 0], 1, NOW + 1), Ok(()));
}

#[test]
fn scenario_stale_nonce_after_commit_is_rejected() {
    let (mut channel, treasury) = open_channel();
    assert_eq!(propose(&mut channel, &treasury, addr(1), [80, 70], 5, NOW + 1), Ok(()));
    assert_eq!(propose(&mut channel, &treasury, addr(2), [80, 70], 5, NOW + 2), Ok(()));
    assert_eq!(channel.nonce, 5);
    let committed = channel;
    assert_eq!(
        propose(&mut channel, &treasury, addr(2), [70, 80], 3, NOW + 3),
        Err(Failure::Channel(ChannelError::InvalidNonce))
    );
    assert_eq!(
        propose(&mut channel, &treasury, addr(2), [70, 80], 5, NOW + 3),
        Err(Failure::Channel(ChannelError::InvalidNonce))
    );
    assert_eq!(channel, committed);
}

#[test]
fn scenario_lower_nonce_overwrites_pending_proposal() {
    let (mut channel, treasury) = open_channel();
    assert_eq!(propose(&mut channel, &treasury, addr(1), [80, 70], 5, NOW + 1), Ok(()));
    assert_eq!(
        channel.pending,
        Pending::Proposed { proposer: addr(1), balances: [80, 70], nonce: 5 }
    );
    assert_eq!(propose(&mut channel, &treasury, addr(2), [80, 70], 3, NOW + 2), Ok(()));
    assert_eq!(
        channel.pending,
        Pending::Proposed { proposer: addr(2), balances: [80, 70], nonce: 3 }
    );
    assert_eq!(channel.nonce, 0);
    assert_eq!(channel.balances, [100, 50]);
    assert_eq!(channel.expires_at, NOW + 60);
}

#[test]
fn same_party_cannot_confirm_its_own_proposal() {
    let (mut channel, treasury) = open_channel();
    assert_eq!(propose(&mut channel, &treasury, addr(1), [80, 70], 1, NOW + 1), Ok(()));
    assert_eq!(propose(&mut channel, &treasury, addr(1), [80, 70], 1, NOW + 2), Ok(()));
    assert_eq!(channel.nonce, 0);
    assert_eq!(channel.balances, [100, 50]);
    assert_eq!(
        channel.pending,
        Pending::Proposed { proposer: addr(1), balances: [80, 70], nonce: 1 }
    );
}

#[test]
fn mismatched_values_do_not_commit() {
    let (mut channel, treasury) = open_channel();
    assert_eq!(propose(&mut channel, &treasury, addr(1), [80, 70], 1, NOW + 1), Ok(()));
    assert_eq!(propose(&mut channel, &treasury, addr(2), [80, 69], 1, NOW + 2), Ok(()));
    assert_eq!(channel.nonce, 0);
    assert_eq!(
        channel.pending,
        Pending::Proposed { proposer: addr(2), balances: [80, 69], nonce: 1 }
    );
    assert_eq!(propose(&mut channel, &treasury, addr(1), [80, 69], 2, NOW + 3), Ok(()));
    assert_eq!(channel.nonce, 0);
    assert_eq!(propose(&mut channel, &treasury, addr(2), [80, 69], 2, NOW + 4), Ok(()));
    assert_eq!(channel.nonce, 2);
    assert_eq!(channel.balances, [80, 69]);
}

#[test]
fn challenge_exit_refusals_in_order() {
    let (mut channel, treasury) = open_channel();
    let before = channel;
    // Expired comes first: for a stranger, a stale nonce and an uncovered split too.
    assert_eq!(
        propose(&mut channel, &treasury, addr(7), [200, 0], 0, NOW + 60),
        Err(Failure::Channel(ChannelError::Expired))
    );
    assert_eq!(
        propose(&mut channel, &treasury, addr(1), [80, 70], 1, NOW + 61),
        Err(Failure::Channel(ChannelError::Expired))
    );
    assert_eq!(
        propose(&mut channel, &treasury, addr(7), [200, 0], 0, NOW + 59),
        Err(Failure::Channel(ChannelError::InvalidNonce))
    );
    assert_eq!(
        propose(&mut channel, &treasury, addr(7), [u64::MAX, 1], 1, NOW + 59),
        Err(Failure::Channel(ChannelError::BalanceOverflow))
    );
    assert_eq!(
        propose(&mut channel, &treasury, addr(7), [151, 0], 1, NOW + 59),
        Err(Failure::Channel(ChannelError::InsufficientBalance))
    );
    assert_eq!(
        propose(&mut channel, &treasury, addr(7), [150, 0], 1, NOW + 59),
        Err(Failure::Channel(ChannelError::NotUser))
    );
    assert_eq!(channel, before);
}

#[test]
fn commit_fails_when_expiry_overflows() {
    let mut ctx = Initialize {
        channel: Channel::new(),
        treasury: fresh_treasury(),
        authority: wallet(addr(9), 10_000),
        bump: 254,
    };
    let s = Substrate { program_id: program_id(), now: 10, minimum_reserve: 0 };
    assert_eq!(initialize(&mut ctx, &s, [addr(1), addr(2)], [100, 50], u64::MAX - 10, u64::MAX), Ok(()));
    let (mut channel, treasury) = (ctx.channel, ctx.treasury);
    assert_eq!(propose(&mut channel, &treasury, addr(1), [80, 70], 1, 10), Ok(()));
    let waiting = channel;
    assert_eq!(
        propose(&mut channel, &treasury, addr(2), [80, 70], 1, 11),
        Err(Failure::Channel(ChannelError::ExpiresAtOverflow))
    );
    assert_eq!(channel, waiting);
    assert_eq!(propose(&mut channel, &treasury, addr(2), [80, 70], 1, 10), Ok(()));
    assert_eq!(channel.expires_at, u64::MAX);
}

#[test]
fn confirming_a_proposal_of_a_stranger_fails() {
    let (mut channel, treasury) = open_channel();
    channel.pending = Pending::Proposed { proposer: addr(7), balances: [80, 70], nonce: 1 };
    let before = channel;
    assert_eq!(
        propose(&mut channel, &treasury, addr(2), [80, 70], 1, NOW + 1),
        Err(Failure::Channel(ChannelError::NotUser))
    );
    assert_eq!(channel, before);
}

#[test]
fn coverage_is_the_sum_of_the_balances_and_no_more() {
    let (mut channel, mut treasury) = open_channel();
    // a treasury of exactly the sum covers it, and one far above it does too
    treasury.lamports = 150;
    assert_eq!(propose(&mut channel, &treasury, addr(1), [100, 50], 1, NOW + 1), Ok(()));
    treasury.lamports = 149;
    assert_eq!(
        propose(&mut channel, &treasury, addr(1), [100, 50], 2, NOW + 1),
        Err(Failure::Channel(ChannelError::InsufficientBalance))
    );
    treasury.lamports = (1u64 << 63) + 151;
    assert_eq!(propose(&mut channel, &treasury, addr(1), [100, 50], 2, NOW + 1), Ok(()));
    treasury.lamports = u64::MAX;
    assert_eq!(propose(&mut channel, &treasury, addr(2), [u64::MAX, 0], 3, NOW + 1), Ok(()));
    treasury.lamports = 0;
    assert_eq!(propose(&mut channel, &treasury, addr(2), [0, 0], 4, NOW + 1), Ok(()));
    assert_eq!(
        propose(&mut channel, &treasury, addr(2), [u64::MAX, 1], 5, NOW + 1),
        Err(Failure::Channel(ChannelError::BalanceOverflow))
    );
    // an outsider with a covered split is told that it is no party
    treasury.lamports = 150;
    assert_eq!(
        propose(&mut channel, &treasury, addr(7), [100, 50], 5, NOW + 1),
        Err(Failure::Channel(ChannelError::NotUser))
    );
}

#[test]
fn scenario_withdraw_after_expiry() {
    let (mut channel, treasury) = open_channel();
    assert_eq!(propose(&mut channel, &treasury, addr(1), [80, 70], 1, NOW + 10), Ok(()));
    assert_eq!(propose(&mut channel, &treasury, addr(2), [80, 70], 1, NOW + 20), Ok(()));
    let expiry = channel.expires_at;
    assert_eq!(expiry, NOW + 80);

    let mut ctx = Withdraw { channel, treasury, user: wallet(addr(1), 1_000) };
    assert_eq!(withdraw(&mut ctx, expiry), Ok(()));
    assert_eq!(ctx.user.lamports, 1_080);
    assert_eq!(ctx.channel.balances, [0, 70]);
    assert_eq!(ctx.treasury.lamports, 70);

    let mut ctx =
        Withdraw { channel: ctx.channel, treasury: ctx.treasury, user: wallet(addr(2), 0) };
    assert_eq!(withdraw(&mut ctx, expiry + 5), Ok(()));
    assert_eq!(ctx.user.lamports, 70);
    assert_eq!(ctx.channel.balances, [0, 0]);
    assert_eq!(ctx.treasury.lamports, 0);
    assert_eq!(ctx.channel.nonce, 1);
    assert_eq!(ctx.channel.expires_at, expiry);
}

#[test]
fn withdraw_twice_pays_once() {
    let (channel, treasury) = open_channel();
    let mut ctx = Withdraw { channel, treasury, user: wallet(addr(2), 7) };
    assert_eq!(withdraw(&mut ctx, NOW + 60), Ok(()));
    let once = ctx.clone();
    assert_eq!(once.user.lamports, 57);
    assert_eq!(once.channel.balances, [100, 0]);
    assert_eq!(once.treasury.lamports, 100);
    assert_eq!(withdraw(&mut ctx, NOW + 61), Ok(()));
    assert_eq!(ctx, once);
}

#[test]
fn withdraw_refusals() {
    let (channel, treasury) = open_channel();
    let mut ctx = Withdraw { channel, treasury, user: wallet(addr(7), 7) };
    let before = ctx.clone();
    assert_eq!(
        withdraw(&mut ctx, NOW + 59),
        Err(Failure::Channel(ChannelError::NotExpired))
    );
    assert_eq!(
        withdraw(&mut ctx, NOW + 60),
        Err(Failure::Channel(ChannelError::NotUser))
    );
    assert_eq!(ctx, before);

    ctx.user = wallet(addr(1), u64::MAX - 99);
    let before = ctx.clone();
    assert_eq!(
        withdraw(&mut ctx, NOW + 60),
        Err(Failure::Channel(ChannelError::BalanceOverflow))
    );
    assert_eq!(ctx, before);

    ctx.user = wallet(addr(1), 0);
    ctx.treasury.lamports = 99;
    let before = ctx.clone();
    assert_eq!(
        withdraw(&mut ctx, NOW + 60),
        Err(Failure::Channel(ChannelError::InsufficientBalance))
    );
    assert_eq!(ctx, before);
}

#[test]
fn deposit_moves_value_into_the_treasury() {
    let (channel, treasury) = open_channel();
    let mut ctx = DepositTreasury { channel, treasury, payer: wallet(addr(7), 500) };
    assert_eq!(deposit_treasury(&mut ctx, 200), Ok(()));
    assert_eq!(ctx.treasury.lamports, 350);
    assert_eq!(ctx.payer.lamports, 300);
    assert_eq!(ctx.channel, channel);
    assert_eq!(deposit_treasury(&mut ctx, 0), Ok(()));
    assert_eq!(ctx.treasury.lamports, 350);

    let before = ctx.clone();
    assert_eq!(
        deposit_treasury(&mut ctx, 301),
        Err(Failure::Program(ProgramError::InsufficientFunds))
    );
    ctx.payer.lamports = u64::MAX;
    assert_eq!(
        deposit_treasury(&mut ctx, u64::MAX - 349),
        Err(Failure::Channel(ChannelError::BalanceOverflow))
    );
    ctx.payer.lamports = 300;
    assert_eq!(ctx, before);

    // topping up makes a larger split acceptable
    let mut channel = ctx.channel;
    assert_eq!(propose(&mut channel, &ctx.treasury, addr(1), [300, 50], 1, NOW + 1), Ok(()));
}

#[test]
fn transfer_to_treasury_is_checked() {
    let mut treasury = wallet(addr(3), 10);
    let mut from = wallet(addr(4), 5);
    assert_eq!(
        transfer_to_treasury(&mut treasury, &mut from, 6),
        Err(Failure::Program(ProgramError::InsufficientFunds))
    );
    assert_eq!(transfer_to_treasury(&mut treasury, &mut from, 5), Ok(()));
    assert_eq!((treasury.lamports, from.lamports), (15, 0));
}

#[test]
fn authority_takes_back_the_excess() {
    let (mut channel, mut treasury) = open_channel();
    treasury.lamports = 150 + RESERVE;
    // the parties agree on a smaller split, which leaves collateral that nobody is owed
    let mut ctx = ChallengeExit { channel, treasury: treasury.clone(), user: wallet(addr(1), 0) };
    assert_eq!(challenge_exit(&mut ctx, NOW + 1, [60, 40], 1), Ok(()));
    ctx.user = wallet(addr(2), 0);
    assert_eq!(challenge_exit(&mut ctx, NOW + 1, [60, 40], 1), Ok(()));
    channel = ctx.channel;
    assert_eq!(channel.balances, [60, 40]);

    let mut ctx =
        WithdrawExcessTreasuryAuthority { channel, treasury, authority: wallet(addr(9), 1) };
    assert_eq!(withdraw_excess_treasury_authority(&mut ctx), Ok(()));
    // the treasury is left with exactly what both parties are owed
    assert_eq!(ctx.treasury.lamports, 100);
    assert_eq!(ctx.authority.lamports, 1 + 50 + RESERVE);
    assert_eq!(ctx.channel, channel);
    // nothing is left to take
    let settled = ctx.clone();
    assert_eq!(withdraw_excess_treasury_authority(&mut ctx), Ok(()));
    assert_eq!(ctx, settled);
    // a treasury that holds less than is owed is left alone, however much less
    ctx.treasury.lamports = 5;
    let short = ctx.clone();
    assert_eq!(withdraw_excess_treasury_authority(&mut ctx), Ok(()));
    assert_eq!(ctx, short);
    ctx.channel.balances = [u64::MAX, 0];
    ctx.treasury.lamports = 0;
    let short = ctx.clone();
    assert_eq!(withdraw_excess_treasury_authority(&mut ctx), Ok(()));
    assert_eq!(ctx, short);
}

#[test]
fn excess_refusals() {
    let (channel, mut treasury) = open_channel();
    treasury.lamports = 1_000;
    let mut ctx = WithdrawExcessTreasuryAuthority {
        channel,
        treasury: treasury.clone(),
        authority: wallet(addr(1), 0),
    };
    let before = ctx.clone();
    assert_eq!(withdraw_excess_treasury_authority(&mut ctx), Err(Failure::NotAuthority));
    assert_eq!(ctx, before);

    ctx.authority = wallet(addr(9), u64::MAX - 849);
    assert_eq!(
        withdraw_excess_treasury_authority(&mut ctx),
        Err(Failure::Channel(ChannelError::BalanceOverflow))
    );
    ctx.authority = wallet(addr(9), u64::MAX - 850);
    assert_eq!(withdraw_excess_treasury_authority(&mut ctx), Ok(()));
    assert_eq!(ctx.authority.lamports, u64::MAX);
    assert_eq!(ctx.treasury.lamports, 150);

    // the signed range: an excess of exactly 2^63 cannot be expressed, nor one beyond
    ctx.authority = wallet(addr(9), 0);
    ctx.treasury.lamports = (1u64 << 63) + 150;
    assert_eq!(
        withdraw_excess_treasury_authority(&mut ctx),
        Err(Failure::Channel(ChannelError::BalanceOverflow))
    );
    ctx.treasury.lamports = (1u64 << 63) + 151;
    assert_eq!(
        withdraw_excess_treasury_authority(&mut ctx),
        Err(Failure::Channel(ChannelError::BalanceOverflow))
    );
    ctx.treasury.lamports = (1u64 << 63) + 149;
    assert_eq!(withdraw_excess_treasury_authority(&mut ctx), Ok(()));
    assert_eq!(ctx.authority.lamports, (1u64 << 63) - 1);
    assert_eq!(ctx.treasury.lamports, 150);

    ctx.channel.balances = [u64::MAX, 1];
    let before = ctx.clone();
    assert_eq!(
        withdraw_excess_treasury_authority(&mut ctx),
        Err(Failure::Channel(ChannelError::BalanceOverflow))
    );
    assert_eq!(ctx, before);
}

#[test]
fn solvency_and_nonce_hold_along_a_run() {
    let (mut channel, mut treasury) = open_channel();
    let mut last_nonce = channel.nonce;
    let mut check = |channel: &Channel, treasury: &Account| {
        assert!(treasury.lamports >= channel.balances[0] + channel.balances[1]);
        assert!(channel.nonce >= last_nonce);
        last_nonce = channel.nonce;
    };
    check(&channel, &treasury);
    let _ = propose(&mut channel, &treasury, addr(1), [150, 0], 3, NOW + 1);
    check(&channel, &treasury);
    let _ = propose(&mut channel, &treasury, addr(2), [150, 0], 3, NOW + 2);
    check(&channel, &treasury);
    let _ = propose(&mut channel, &treasury, addr(2), [0, 500], 4, NOW + 3);
    check(&channel, &treasury);
    let mut dep = DepositTreasury { channel, treasury, payer: wallet(addr(5), 1_000) };
    assert_eq!(deposit_treasury(&mut dep, 400), Ok(()));
    treasury = dep.treasury;
    check(&channel, &treasury);
    let _ = propose(&mut channel, &treasury, addr(2), [0, 500], 4, NOW + 3);
    let _ = propose(&mut channel, &treasury, addr(1), [0, 500], 4, NOW + 4);
    check(&channel, &treasury);
    assert_eq!(channel.nonce, 4);
    let _ = propose(&mut channel, &treasury, addr(1), [10, 10], 2, NOW + 5);
    check(&channel, &treasury);
    let mut rec = WithdrawExcessTreasuryAuthority {
        channel,
        treasury,
        authority: wallet(addr(9), 0),
    };
    assert_eq!(withdraw_excess_treasury_authority(&mut rec), Ok(()));
    treasury = rec.treasury;
    assert_eq!(treasury.lamports, 500);
    check(&channel, &treasury);
    let mut w = Withdraw { channel, treasury, user: wallet(addr(2), 0) };
    assert_eq!(withdraw(&mut w, channel.expires_at), Ok(()));
    check(&w.channel, &w.treasury);
    assert_eq!(w.treasury.lamports, 0);
}

#[test]
fn signed_difference_of_amounts() {
    assert_eq!(subtract_u64_to_i64(7, 5), Ok(2));
    assert_eq!(subtract_u64_to_i64(5, 7), Ok(-2));
    assert_eq!(subtract_u64_to_i64(0, 0), Ok(0));
    assert_eq!(subtract_u64_to_i64(i64::MAX as u64, 0), Ok(i64::MAX));
    assert_eq!(subtract_u64_to_i64(i64::MAX as u64 + 1, 0), Err(ChannelError::BalanceOverflow));
    assert_eq!(subtract_u64_to_i64(0, i64::MAX as u64), Ok(-i64::MAX));
    assert_eq!(subtract_u64_to_i64(0, i64::MAX as u64 + 1), Ok(i64::MIN));
    assert_eq!(subtract_u64_to_i64(0, i64::MAX as u64 + 2), Err(ChannelError::BalanceOverflow));
    assert_eq!(subtract_u64_to_i64(u64::MAX, 0), Err(ChannelError::BalanceOverflow));
    assert_eq!(subtract_u64_to_i64(u64::MAX, u64::MAX - 3), Ok(3));
}

#[test]
fn magnitude_of_a_signed_amount() {
    assert_eq!(abs_i64_to_u64(0), Ok(0));
    assert_eq!(abs_i64_to_u64(-1), Ok(1));
    assert_eq!(abs_i64_to_u64(-i64::MAX), Ok(i64::MAX as u64));
    assert_eq!(abs_i64_to_u64(i64::MIN), Err(ChannelError::BalanceOverflow));
    assert_eq!(abs_i64_to_u64(5), Ok(5));
    assert_eq!(abs_i64_to_u64(i64::MAX), Ok(i64::MAX as u64));
    assert_eq!(abs_i64_to_u64(i64::MIN + 1), Ok(i64::MAX as u64));
}

#[test]
fn balance_needed_is_checked() {
    assert_eq!(calculate_total_balance_needed([100, 50], 10), Ok(160));
    assert_eq!(calculate_total_balance_needed([0, 0], 0), Ok(0));
    assert_eq!(calculate_total_balance_needed([u64::MAX, 0], 0), Ok(u64::MAX));
    assert_eq!(
        calculate_total_balance_needed([u64::MAX, 1], 0),
        Err(ChannelError::BalanceOverflow)
    );
    assert_eq!(
        calculate_total_balance_needed([u64::MAX - 1, 1], 1),
        Err(ChannelError::BalanceOverflow)
    );
    let treasury = wallet(addr(3), 150);
    assert_eq!(calculate_extra_balance_needed(&treasury, [100, 60]), Ok(10));
    assert_eq!(calculate_extra_balance_needed(&treasury, [100, 50]), Ok(0));
    assert_eq!(calculate_extra_balance_needed(&treasury, [10, 50]), Ok(-90));
    assert_eq!(
        calculate_extra_balance_needed(&treasury, [u64::MAX, 50]),
        Err(ChannelError::BalanceOverflow)
    );
    assert_eq!(
        calculate_extra_balance_needed(&treasury, [u64::MAX - 50, 50]),
        Err(ChannelError::BalanceOverflow)
    );
    assert_eq!(verify_balances(&treasury, [100, 50]), Ok(()));
    assert_eq!(verify_balances(&treasury, [0, 0]), Ok(()));
    assert_eq!(verify_balances(&treasury, [100, 51]), Err(ChannelError::InsufficientBalance));
    assert_eq!(
        verify_balances(&treasury, [u64::MAX - 50, 50]),
        Err(ChannelError::InsufficientBalance)
    );
    assert_eq!(verify_balances(&treasury, [u64::MAX, 50]), Err(ChannelError::BalanceOverflow));
    assert_eq!(verify_balances(&wallet(addr(3), u64::MAX), [100, 50]), Ok(()));

    assert_eq!(calculate_excess_balance(&treasury, [100, 50]), Ok(0));
    assert_eq!(calculate_excess_balance(&treasury, [100, 60]), Ok(0));
    assert_eq!(calculate_excess_balance(&treasury, [u64::MAX - 50, 50]), Ok(0));
    assert_eq!(calculate_excess_balance(&treasury, [100, 10]), Ok(40));
    assert_eq!(calculate_excess_balance(&treasury, [0, 0]), Ok(150));
    assert_eq!(
        calculate_excess_balance(&treasury, [u64::MAX, 1]),
        Err(ChannelError::BalanceOverflow)
    );
    let rich = wallet(addr(3), 1u64 << 63);
    assert_eq!(calculate_excess_balance(&rich, [1, 0]), Ok(i64::MAX as u64));
    assert_eq!(calculate_excess_balance(&rich, [0, 0]), Err(ChannelError::BalanceOverflow));
}

#[test]
fn parties_are_found_by_address() {
    let users = [addr(1), addr(2)];
    assert_eq!(find_user_index(users, &addr(1)), Ok(0));
    assert_eq!(find_user_index(users, &addr(2)), Ok(1));
    assert_eq!(find_user_index(users, &addr(3)), Err(ChannelError::NotUser));
    assert_eq!(find_user_index([addr(2), addr(2)], &addr(2)), Ok(0));
    assert_eq!(verify_user(users, &addr(2)), Ok(()));
    assert_eq!(verify_user(users, &addr(3)), Err(ChannelError::NotUser));
}

#[test]
fn transfer_from_treasury_is_checked() {
    let mut treasury = wallet(addr(3), 10);
    let mut to = wallet(addr(4), u64::MAX - 5);
    assert_eq!(
        transfer_from_treasury(&mut treasury, &mut to, 11),
        Err(ChannelError::InsufficientBalance)
    );
    assert_eq!(
        transfer_from_treasury(&mut treasury, &mut to, 6),
        Err(ChannelError::BalanceOverflow)
    );
    assert_eq!((treasury.lamports, to.lamports), (10, u64::MAX - 5));
    assert_eq!(transfer_from_treasury(&mut treasury, &mut to, 5), Ok(()));
    assert_eq!((treasury.lamports, to.lamports), (5, u64::MAX));
}

#[test]
fn addresses_compare_by_their_bytes() {
    assert_eq!(addr(1), addr(1));
    assert_ne!(addr(1), addr(2));
    assert!(Address::default().is_default());
    assert!(!addr(1).is_default());
    assert_eq!(Address::default().to_bytes(), [0u8; 32]);
    let mut bytes = [0u8; 32];
    bytes[31] = 1;
    assert_ne!(Address::new(bytes), Address::default());
}
