use chain_programs::address::Address;
use chain_programs::blog::{
    initialize as open_blog, make_post, BlogAccount, Initialize as OpenBlog, MakePost,
    Refusal as BlogRefusal,
};
use chain_programs::identity::{claim_username, ClaimUsername, UserAccount, USERNAME_ACCOUNT_SEED};
use chain_programs::ledger::{ConstraintError, ProgramError};
use chain_programs::staking::{
    check_escrow_token, check_owner_token, close_stake_account, create_escrow_account,
    create_stake_account, fund_escrow_account, CloseStakeAccount, CreateEscrowAccount,
    CreateStakeAccount, Escrow, FundEscrowAccount, Refusal, Stake, StakingError,
    ESCROW_ACCOUNT_SEED, REWARD_PERCENT_PER_5_SECONDS_DECIMAL,
    REWARD_PERCENT_PER_5_SECONDS_DIVISOR, REWARD_PERCENT_PER_5_SECONDS_SIGNIFICAND,
    STAKE_ACCOUNT_SEED,
};
use chain_programs::token::{
    proxy_burn, proxy_mint_to, proxy_set_authority, proxy_transfer, AuthorityType, ProxyBurn,
    ProxyMintTo, ProxySetAuthority, ProxyTransfer, TokenAccount, TokenCall, TokenTransfer,
};
use chain_programs::wallet::{
    create, transfer_tokens, Create, TransferTokens, Wallet, WALLET_ACCOUNT_SEED,
};

fn addr(tag: u8) -> Address {
    let mut bytes = [0u8; 32];
    bytes[0] = tag;
    bytes[31] = 1;
    Address::new(bytes)
}

fn token(key: u8, mint: u8, owner: u8, amount: u64) -> TokenAccount {
    TokenAccount { key: addr(key), mint: addr(mint), owner: addr(owner), amount }
}

fn stake(amount: u64, created_at: u64) -> Stake {
    Stake { owner: addr(1), mint: addr(2), amount, created_at, bump: 3 }
}

#[test]
fn reward_is_two_hundred_millionths_for_every_five_seconds() {
    let s = stake(1_000_000_000, 100);
    assert_eq!(s.calculate_reward(100), Ok(0));
    assert_eq!(s.calculate_reward(50), Ok(0));
    assert_eq!(s.calculate_reward(104), Ok(0));
    assert_eq!(s.calculate_reward(105), Ok(20));
    assert_eq!(s.calculate_reward(109), Ok(20));
    assert_eq!(s.calculate_reward(110), Ok(40));
    assert_eq!(s.calculate_reward(100 + 5 * 1000), Ok(20_000));
    assert_eq!(s.calculate_total_amount(105), Ok(1_000_000_020));
    assert_eq!(s.calculate_total_amount(99), Ok(1_000_000_000));
    // rounded down once, at the end
    assert_eq!(stake(49_999_999, 0).calculate_reward(5), Ok(0));
    assert_eq!(stake(50_000_000, 0).calculate_reward(5), Ok(1));
    assert_eq!(stake(30_000_000, 0).calculate_reward(10), Ok(1));
    assert_eq!(stake(0, 0).calculate_reward(u64::MAX), Ok(0));
    assert_eq!(REWARD_PERCENT_PER_5_SECONDS_SIGNIFICAND, 2);
    assert_eq!(REWARD_PERCENT_PER_5_SECONDS_DIVISOR, 10u128.pow(REWARD_PERCENT_PER_5_SECONDS_DECIMAL));
}

#[test]
fn reward_and_total_are_bounded() {
    let huge = stake(u64::MAX, 0);
    assert_eq!(huge.calculate_reward(u64::MAX), Err(StakingError::RewardOutOfBounds));
    assert_eq!(huge.calculate_total_amount(u64::MAX), Err(StakingError::RewardOutOfBounds));
    // the largest reward that still fits
    let periods = 50_000_000u64;
    assert_eq!(huge.calculate_reward(periods * 5), Ok(u64::MAX));
    assert_eq!(huge.calculate_reward(periods * 5 + 5), Err(StakingError::RewardOutOfBounds));
    assert_eq!(huge.calculate_total_amount(5), Err(StakingError::TotalAmountOutOfBounds));
    assert_eq!(huge.calculate_total_amount(4), Ok(u64::MAX));
    assert_eq!(StakingError::ZeroAmount.to_string(), "The amount cannot be zero.");
    assert_eq!(
        StakingError::RewardOutOfBounds.to_string(),
        "The reward amount is out of bounds."
    );
    assert_eq!(
        StakingError::TotalAmountOutOfBounds.to_string(),
        "The total amount is out of bounds."
    );
    assert_eq!(
        StakingError::InsufficientFunds.to_string(),
        "The paying account has insufficient funds."
    );
}

#[test]
fn escrow_is_created_and_funded() {
    let mut ctx = CreateEscrowAccount {
        escrow_key: addr(10),
        escrow: Escrow::default(),
        payer: addr(1),
        mint: addr(2),
        escrow_token: token(11, 2, 10, 0),
        bump: 250,
    };
    assert_eq!(
        Escrow::default(),
        Escrow { payer: Address::default(), mint: Address::default(), bump: 0 }
    );
    assert_eq!(create_escrow_account(&mut ctx), Ok(()));
    assert_eq!(ctx.escrow, Escrow { payer: addr(1), mint: addr(2), bump: 250 });

    let mut wrong = ctx;
    wrong.escrow = Escrow { payer: Address::default(), mint: Address::default(), bump: 0 };
    wrong.escrow_token.mint = addr(3);
    let before = wrong;
    assert_eq!(
        create_escrow_account(&mut wrong),
        Err(Refusal::Constraint(ConstraintError::HasOne))
    );
    assert_eq!(wrong, before);
    wrong.escrow_token = token(11, 2, 12, 0);
    assert_eq!(create_escrow_account(&mut wrong), Err(Refusal::Constraint(ConstraintError::Raw)));

    let fund = FundEscrowAccount {
        escrow_key: addr(10),
        escrow: ctx.escrow,
        payer: addr(1),
        mint: addr(2),
        escrow_token: token(11, 2, 10, 0),
        payer_token: token(12, 2, 1, 500),
    };
    let expected = TokenTransfer {
        from: addr(12),
        to: addr(11),
        authority: addr(1),
        amount: 500,
        signer_seeds: vec![],
    };
    assert_eq!(fund_escrow_account(&fund, 500), Ok(expected.clone()));
    assert_eq!(fund.transfer_to_escrow(500), expected);
    assert_eq!(
        fund_escrow_account(&fund, 501),
        Err(Refusal::Staking(StakingError::InsufficientFunds))
    );
    let mut other = fund;
    other.payer_token.owner = addr(9);
    assert_eq!(fund_escrow_account(&other, 1), Err(Refusal::Constraint(ConstraintError::Raw)));
    other.payer_token = token(12, 3, 1, 500);
    assert_eq!(fund_escrow_account(&other, 1), Err(Refusal::Constraint(ConstraintError::HasOne)));
    assert_eq!(&ESCROW_ACCOUNT_SEED[..], b"escrow");
    assert_eq!(&STAKE_ACCOUNT_SEED[..], b"stake");
    assert_eq!(check_escrow_token(&token(11, 2, 10, 0), &addr(2), &addr(10)), Ok(()));
    assert_eq!(check_owner_token(&token(13, 2, 1, 0), &addr(1), &addr(2)), Ok(()));
    assert_eq!(
        check_owner_token(&token(13, 2, 1, 0), &addr(3), &addr(2)),
        Err(ConstraintError::HasOne)
    );
}

#[test]
fn stake_is_made_and_closed() {
    let blank = Stake::default();
    assert_eq!(blank.amount, 0);
    let mut ctx = CreateStakeAccount {
        stake: blank,
        escrow_key: addr(10),
        escrow: Escrow { payer: addr(5), mint: addr(2), bump: 250 },
        owner: addr(1),
        mint: addr(2),
        escrow_token: token(11, 2, 10, 0),
        owner_token: token(13, 2, 1, 1_000_000_000),
        bump: 249,
    };
    let before = ctx;
    assert_eq!(
        create_stake_account(&mut ctx, 0, 77),
        Err(Refusal::Staking(StakingError::ZeroAmount))
    );
    assert_eq!(
        create_stake_account(&mut ctx, 1_000_000_001, 77),
        Err(Refusal::Staking(StakingError::InsufficientFunds))
    );
    assert_eq!(ctx, before);
    let t = create_stake_account(&mut ctx, 1_000_000_000, 77).unwrap();
    assert_eq!(
        t,
        TokenTransfer {
            from: addr(13),
            to: addr(11),
            authority: addr(1),
            amount: 1_000_000_000,
            signer_seeds: vec![],
        }
    );
    assert_eq!(t, ctx.transfer_to_escrow(1_000_000_000));
    assert_eq!(
        ctx.stake,
        Stake { owner: addr(1), mint: addr(2), amount: 1_000_000_000, created_at: 77, bump: 249 }
    );
    let mut wrong = before;
    wrong.owner_token.owner = addr(9);
    assert_eq!(
        create_stake_account(&mut wrong, 5, 77),
        Err(Refusal::Constraint(ConstraintError::HasOne))
    );

    let close = CloseStakeAccount {
        stake: ctx.stake,
        escrow_key: addr(10),
        escrow: ctx.escrow,
        owner: addr(1),
        mint: addr(2),
        escrow_token: token(11, 2, 10, 2_000_000_000),
        owner_token: token(13, 2, 1, 0),
    };
    let paid = close_stake_account(&close, 77 + 50).unwrap();
    assert_eq!(
        paid,
        TokenTransfer {
            from: addr(11),
            to: addr(13),
            authority: addr(10),
            amount: 1_000_000_200,
            signer_seeds: vec![b"escrow".to_vec(), addr(2).to_bytes().to_vec(), vec![250]],
        }
    );
    assert_eq!(paid, close.transfer_from_escrow(250, 1_000_000_200));
    let mut overflowing = close;
    overflowing.stake.amount = u64::MAX;
    assert_eq!(
        close_stake_account(&overflowing, 77 + 5),
        Err(Refusal::Staking(StakingError::TotalAmountOutOfBounds))
    );
    overflowing.stake.created_at = 0;
    assert_eq!(
        close_stake_account(&overflowing, u64::MAX),
        Err(Refusal::Staking(StakingError::RewardOutOfBounds))
    );
    overflowing.escrow_token.owner = addr(9);
    assert_eq!(
        close_stake_account(&overflowing, u64::MAX),
        Err(Refusal::Constraint(ConstraintError::Raw))
    );
}

#[test]
fn wallet_moves_tokens_for_its_users_only() {
    assert_eq!(Wallet::space(0), 13);
    assert_eq!(Wallet::space(3), 8 + 4 + 3 * 32 + 1);
    assert_eq!(&WALLET_ACCOUNT_SEED[..], b"wallet");
    let mut ctx = Create {
        wallet: Wallet::default(),
        payer: addr(1),
        bump: 251,
    };
    create(&mut ctx, vec![addr(1), addr(2)]);
    assert_eq!(ctx.wallet, Wallet { users: vec![addr(1), addr(2)], bump: 251 });
    assert!(ctx.wallet.has_user(&addr(2)));
    assert!(!ctx.wallet.has_user(&addr(3)));

    let good = TransferTokens {
        wallet_key: addr(20),
        wallet: ctx.wallet.clone(),
        user: addr(2),
        mint: addr(5),
        wallet_token: token(21, 5, 20, 100),
        destination_token: token(22, 5, 9, 0),
    };
    assert_eq!(
        transfer_tokens(&good, 40),
        Ok(TokenTransfer {
            from: addr(21),
            to: addr(22),
            authority: addr(20),
            amount: 40,
            signer_seeds: vec![b"wallet".to_vec(), vec![251]],
        })
    );
    let mut bad = good.clone();
    bad.user = addr(3);
    assert_eq!(transfer_tokens(&bad, 40), Err(ConstraintError::Raw));
    let mut bad = good.clone();
    bad.wallet_token.mint = addr(6);
    assert_eq!(transfer_tokens(&bad, 40), Err(ConstraintError::Raw));
    let mut bad = good.clone();
    bad.wallet_token.owner = addr(2);
    assert_eq!(transfer_tokens(&bad, 40), Err(ConstraintError::Raw));
    let mut bad = good.clone();
    bad.destination_token.mint = addr(6);
    assert_eq!(transfer_tokens(&bad, 40), Err(ConstraintError::Raw));
    let mut bad = good;
    bad.wallet.users.clear();
    assert_eq!(transfer_tokens(&bad, 40), Err(ConstraintError::Raw));
}

#[test]
fn usernames_are_shorter_than_140_bytes() {
    let blank = || ClaimUsername {
        user: UserAccount { username: String::new(), authority: Address::default(), bump: 0 },
        authority: addr(1),
        bump: 252,
    };
    let mut ctx = blank();
    assert_eq!(claim_username(&mut ctx, "alice".to_string()), Ok(()));
    assert_eq!(
        ctx.user,
        UserAccount { username: "alice".to_string(), authority: addr(1), bump: 252 }
    );
    let mut ctx = blank();
    assert_eq!(claim_username(&mut ctx, "x".repeat(139)), Ok(()));
    assert_eq!(ctx.user.username.len(), 139);
    let mut ctx = blank();
    assert_eq!(claim_username(&mut ctx, "x".repeat(140)), Err(ProgramError::InvalidArgument));
    assert_eq!(ctx, blank());
    // the bound is on bytes, not on characters
    assert_eq!(claim_username(&mut ctx, "\u{e9}".repeat(70)), Err(ProgramError::InvalidArgument));
    assert_eq!(claim_username(&mut ctx, "\u{e9}".repeat(69)), Ok(()));
    assert_eq!(UserAccount::MAX_USERNAME_LEN, 140);
    assert_eq!(UserAccount::SPACE, 8 + 4 + 140 + 32 + 1);
    assert_eq!(&USERNAME_ACCOUNT_SEED[..], b"username");
}

#[test]
fn blog_keeps_the_latest_post_of_its_author() {
    let mut ctx = OpenBlog {
        blog_account: BlogAccount { authority: Address::default(), latest_post: vec![] },
        authority: addr(1),
    };
    open_blog(&mut ctx);
    assert_eq!(ctx.blog_account.authority, addr(1));

    let mut post = MakePost { blog_account: ctx.blog_account.clone(), authority: addr(1) };
    assert_eq!(make_post(&mut post, "hello".as_bytes().to_vec()), Ok("hello".to_string()));
    assert_eq!(post.blog_account.latest_post, b"hello".to_vec());
    let before = post.clone();
    assert_eq!(
        make_post(&mut post, vec![b'a', 0xFF]),
        Err(BlogRefusal::Program(ProgramError::InvalidInstructionData))
    );
    assert_eq!(post, before);
    post.authority = addr(2);
    assert_eq!(
        make_post(&mut post, b"mine".to_vec()),
        Err(BlogRefusal::Constraint(ConstraintError::HasOne))
    );
    assert_eq!(post.blog_account.latest_post, b"hello".to_vec());
    post.authority = addr(1);
    assert_eq!(make_post(&mut post, vec![]), Ok(String::new()));
    assert_eq!(post.blog_account.latest_post, Vec::<u8>::new());
}

#[test]
fn proxy_passes_requests_on() {
    let t = ProxyTransfer { authority: addr(1), from: addr(2), to: addr(3) };
    assert_eq!(
        proxy_transfer(&t, 9),
        TokenCall::Transfer { from: addr(2), to: addr(3), authority: addr(1), amount: 9 }
    );
    let m = ProxyMintTo { authority: addr(1), mint: addr(4), to: addr(3) };
    assert_eq!(
        proxy_mint_to(&m, 8),
        TokenCall::MintTo { mint: addr(4), to: addr(3), authority: addr(1), amount: 8 }
    );
    let b = ProxyBurn { authority: addr(1), mint: addr(4), to: addr(3) };
    assert_eq!(
        proxy_burn(&b, 7),
        TokenCall::Burn { mint: addr(4), to: addr(3), authority: addr(1), amount: 7 }
    );
    let s = ProxySetAuthority { current_authority: addr(1), account_or_mint: addr(4) };
    assert_eq!(
        proxy_set_authority(&s, AuthorityType::FreezeAccount, Some(addr(5))),
        TokenCall::SetAuthority {
            account_or_mint: addr(4),
            current_authority: addr(1),
            authority_type: AuthorityType::FreezeAccount,
            new_authority: Some(addr(5)),
        }
    );
    assert_eq!(
        [
            AuthorityType::MintTokens.code(),
            AuthorityType::FreezeAccount.code(),
            AuthorityType::AccountOwner.code(),
            AuthorityType::CloseAccount.code(),
        ],
        [0, 1, 2, 3]
    );
}
