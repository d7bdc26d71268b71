use blink_solana::{
    str_to_slug, Address, AppErrorCode, Authorizer, CreatePool, CreateState, Deposit, Deposited,
    Mint, PoolAccount, Record, StateAccount, TokenAccount, TransferChecked, UserPoolAccount,
    Withdraw, Withdrawn,
};

fn key(fill: u8) -> Address {
    Address { bytes: [fill; 32] }
}

const ADMIN: u8 = 1;
const MINT: u8 = 2;
const VAULT: u8 = 3;
const FEE_VAULT: u8 = 4;
const POOL: u8 = 5;
const STATE: u8 = 6;
const ALICE: u8 = 7;
const BOB: u8 = 8;
const POSITION: u8 = 9;

fn state() -> Option<Record> {
    Some(Record::State(StateAccount { authority: key(ADMIN) }))
}

fn pool(total_amount: u64, fee_amount: u64) -> PoolAccount {
    PoolAccount {
        authority: key(ADMIN),
        mint: key(MINT),
        vault: key(VAULT),
        fee_vault: key(FEE_VAULT),
        slug: str_to_slug("alpha-1"),
        accepted_amount: 1_000_000,
        total_amount,
        fee_rate: 250,
        fee_amount,
    }
}

fn position(amount: u64) -> UserPoolAccount {
    UserPoolAccount { pool: key(POOL), authority: key(ALICE), amount }
}

fn create_pool_ctx() -> CreatePool {
    CreatePool {
        authority: key(ADMIN),
        state: key(STATE),
        pool: key(POOL),
        vault: key(VAULT),
        fee_vault: key(FEE_VAULT),
        mint: key(MINT),
    }
}

fn deposit_ctx() -> Deposit {
    Deposit {
        pool: key(POOL),
        mint: Mint { address: key(MINT), decimals: 9 },
        vault: key(VAULT),
        authority: key(ALICE),
        user_pool: key(POSITION),
        user_vault: TokenAccount { address: key(20), mint: key(MINT), owner: key(ALICE) },
    }
}

fn withdraw_ctx() -> Withdraw {
    Withdraw {
        pool: key(POOL),
        pool_bump: 254,
        mint: Mint { address: key(MINT), decimals: 9 },
        vault: key(VAULT),
        fee_vault: key(FEE_VAULT),
        authority: key(ALICE),
        user_vault: TokenAccount { address: key(20), mint: key(MINT), owner: key(ALICE) },
        user_pool: key(POSITION),
    }
}

#[test]
fn create_state_rule_gives_the_authority_record() {
    let ctx = CreateState { authority: key(ADMIN), state: key(STATE) };
    assert_eq!(ctx.apply(None), Ok(StateAccount { authority: key(ADMIN) }));
}

#[test]
fn create_state_rule_refuses_a_taken_address() {
    let ctx = CreateState { authority: key(ADMIN), state: key(STATE) };
    assert_eq!(ctx.apply(state()), Err(AppErrorCode::AlreadyExists));
    assert_eq!(ctx.apply(Some(Record::Pool(pool(0, 0)))), Err(AppErrorCode::AlreadyExists));
    assert_eq!(ctx.apply(Some(Record::UserPool(position(0)))), Err(AppErrorCode::AlreadyExists));
}

#[test]
fn create_pool_rule_gives_the_pool() {
    let given = create_pool_ctx().apply(state(), None, "alpha-1", 1_000_000, 250);
    assert_eq!(given, Ok(pool(0, 0)));
}

#[test]
fn create_pool_rule_gives_its_reasons_in_order() {
    let ctx = create_pool_ctx();
    let taken = Some(Record::Pool(pool(0, 0)));
    assert_eq!(ctx.apply(None, taken, "", 0, 10_001), Err(AppErrorCode::AccountNotInitialized));
    assert_eq!(ctx.apply(taken, taken, "", 0, 10_001), Err(AppErrorCode::AccountNotInitialized));
    let stranger = CreatePool { authority: key(BOB), ..ctx };
    assert_eq!(
        stranger.apply(state(), taken, "", 0, 10_001),
        Err(AppErrorCode::CallerNotAdministrator)
    );
    assert_eq!(ctx.apply(state(), taken, "", 0, 10_001), Err(AppErrorCode::InvalidSlug));
    assert_eq!(
        ctx.apply(state(), taken, "alpha-1", 0, 10_001),
        Err(AppErrorCode::InvalidAcceptedAmount)
    );
    assert_eq!(ctx.apply(state(), taken, "alpha-1", 1, 10_001), Err(AppErrorCode::InvalidFeeRate));
    assert_eq!(ctx.apply(state(), taken, "alpha-1", 1, 10_000), Err(AppErrorCode::AlreadyExists));
    assert!(ctx.apply(state(), None, "alpha-1", 1, 10_000).is_ok());
}

#[test]
fn deposit_rule_gives_the_records_and_the_transfer() {
    let ctx = deposit_ctx();
    let expected = Deposited {
        pool: pool(3_000_000, 11),
        position: position(1_000_000),
        transfer: TransferChecked {
            from: key(20),
            to: key(VAULT),
            authorizer: Authorizer::Caller(key(ALICE)),
            mint: key(MINT),
            amount: 1_000_000,
            decimals: 9,
        },
    };
    assert_eq!(ctx.apply(Some(Record::Pool(pool(2_000_000, 11))), None, "alpha-1"), Ok(expected));
    assert_eq!(
        ctx.apply(
            Some(Record::Pool(pool(2_000_000, 11))),
            Some(Record::UserPool(position(0))),
            "alpha-1"
        ),
        Ok(expected)
    );
}

#[test]
fn deposit_rule_gives_its_reasons_in_order() {
    let ctx = deposit_ctx();
    let held = Some(Record::UserPool(position(1_000_000)));
    let full = Some(Record::Pool(pool(u64::MAX, 0)));
    let wrong = Deposit {
        vault: key(30),
        mint: Mint { address: key(31), decimals: 9 },
        user_vault: TokenAccount { address: key(20), mint: key(32), owner: key(BOB) },
        ..ctx
    };
    assert_eq!(wrong.apply(None, held, "alpha-1"), Err(AppErrorCode::AccountNotInitialized));
    assert_eq!(wrong.apply(state(), held, "alpha-1"), Err(AppErrorCode::AccountNotInitialized));
    assert_eq!(wrong.apply(held, held, "alpha-1"), Err(AppErrorCode::AccountNotInitialized));
    assert_eq!(wrong.apply(full, held, "alpha-2"), Err(AppErrorCode::AccountNotInitialized));
    assert_eq!(wrong.apply(full, held, "alpha-1"), Err(AppErrorCode::VaultMismatch));
    let wrong = Deposit { vault: ctx.vault, ..wrong };
    assert_eq!(wrong.apply(full, held, "alpha-1"), Err(AppErrorCode::AssetMismatch));
    let wrong = Deposit { mint: ctx.mint, ..wrong };
    assert_eq!(wrong.apply(full, held, "alpha-1"), Err(AppErrorCode::Unauthorized));
    let wrong = Deposit {
        user_vault: TokenAccount { address: key(20), mint: key(32), owner: key(ALICE) },
        ..wrong
    };
    assert_eq!(wrong.apply(full, held, "alpha-1"), Err(AppErrorCode::AssetMismatch));
    let other_pool = Some(Record::UserPool(UserPoolAccount { pool: key(40), ..position(1) }));
    assert_eq!(ctx.apply(full, other_pool, "alpha-1"), Err(AppErrorCode::Unauthorized));
    let other_owner = Some(Record::UserPool(UserPoolAccount { authority: key(BOB), ..position(1) }));
    assert_eq!(ctx.apply(full, other_owner, "alpha-1"), Err(AppErrorCode::Unauthorized));
    assert_eq!(ctx.apply(full, state(), "alpha-1"), Err(AppErrorCode::AlreadyExists));
    assert_eq!(ctx.apply(full, full, "alpha-1"), Err(AppErrorCode::AlreadyExists));
    assert_eq!(ctx.apply(full, held, "alpha-1"), Err(AppErrorCode::DuplicateDeposit));
    let empty = Some(Record::UserPool(position(0)));
    assert_eq!(ctx.apply(full, empty, "alpha-1"), Err(AppErrorCode::AmountOverflow));
    assert_eq!(ctx.apply(full, None, "alpha-1"), Err(AppErrorCode::AmountOverflow));
}

#[test]
fn deposit_rule_fills_the_total_to_the_last_unit() {
    let ctx = deposit_ctx();
    let room = Some(Record::Pool(pool(u64::MAX - 1_000_000, 0)));
    assert_eq!(ctx.apply(room, None, "alpha-1").map(|given| given.pool.total_amount), Ok(u64::MAX));
    let short = Some(Record::Pool(pool(u64::MAX - 999_999, 0)));
    assert_eq!(ctx.apply(short, None, "alpha-1"), Err(AppErrorCode::AmountOverflow));
}

#[test]
fn withdraw_rule_gives_the_records_and_the_transfers() {
    let ctx = withdraw_ctx();
    let authorizer =
        Authorizer::Pool { address: key(POOL), slug: str_to_slug("alpha-1"), bump: 254 };
    let expected = Withdrawn {
        pool: pool(2_000_000, 25_011),
        position: position(0),
        to_caller: TransferChecked {
            from: key(VAULT),
            to: key(20),
            authorizer,
            mint: key(MINT),
            amount: 975_000,
            decimals: 9,
        },
        to_fee_vault: TransferChecked {
            from: key(VAULT),
            to: key(FEE_VAULT),
            authorizer,
            mint: key(MINT),
            amount: 25_000,
            decimals: 9,
        },
    };
    let before = Some(Record::Pool(pool(3_000_000, 11)));
    let held = Some(Record::UserPool(position(1_000_000)));
    assert!(ctx.is_covered(&before, &held));
    assert_eq!(ctx.apply(before, held, "alpha-1"), Ok(expected));
}

#[test]
fn withdraw_rule_gives_its_reasons_in_order() {
    let ctx = withdraw_ctx();
    let held = Some(Record::UserPool(position(1_000_000)));
    let rich = Some(Record::Pool(pool(1_000_000, u64::MAX)));
    let wrong = Withdraw {
        vault: key(30),
        mint: Mint { address: key(31), decimals: 9 },
        fee_vault: key(33),
        user_vault: TokenAccount { address: key(20), mint: key(32), owner: key(BOB) },
        ..ctx
    };
    assert_eq!(wrong.apply(None, held, "alpha-1"), Err(AppErrorCode::AccountNotInitialized));
    assert_eq!(wrong.apply(state(), held, "alpha-1"), Err(AppErrorCode::AccountNotInitialized));
    assert_eq!(wrong.apply(rich, held, "alpha-2"), Err(AppErrorCode::AccountNotInitialized));
    assert_eq!(wrong.apply(rich, held, "alpha-1"), Err(AppErrorCode::VaultMismatch));
    let wrong = Withdraw { vault: ctx.vault, ..wrong };
    assert_eq!(wrong.apply(rich, held, "alpha-1"), Err(AppErrorCode::AssetMismatch));
    let wrong = Withdraw { mint: ctx.mint, ..wrong };
    assert_eq!(wrong.apply(rich, held, "alpha-1"), Err(AppErrorCode::VaultMismatch));
    let wrong = Withdraw { fee_vault: ctx.fee_vault, ..wrong };
    assert_eq!(wrong.apply(rich, held, "alpha-1"), Err(AppErrorCode::Unauthorized));
    let wrong = Withdraw {
        user_vault: TokenAccount { address: key(20), mint: key(32), owner: key(ALICE) },
        ..wrong
    };
    assert_eq!(wrong.apply(rich, held, "alpha-1"), Err(AppErrorCode::AssetMismatch));
    assert_eq!(ctx.apply(rich, None, "alpha-1"), Err(AppErrorCode::NothingToWithdraw));
    assert_eq!(ctx.apply(rich, state(), "alpha-1"), Err(AppErrorCode::NothingToWithdraw));
    let other_pool = Some(Record::UserPool(UserPoolAccount { pool: key(40), ..position(0) }));
    assert_eq!(ctx.apply(rich, other_pool, "alpha-1"), Err(AppErrorCode::Unauthorized));
    let other_owner = Some(Record::UserPool(UserPoolAccount { authority: key(BOB), ..position(0) }));
    assert_eq!(ctx.apply(rich, other_owner, "alpha-1"), Err(AppErrorCode::Unauthorized));
    let empty = Some(Record::UserPool(position(0)));
    assert_eq!(ctx.apply(rich, empty, "alpha-1"), Err(AppErrorCode::NothingToWithdraw));
    assert_eq!(ctx.apply(rich, held, "alpha-1"), Err(AppErrorCode::AmountOverflow));
}

#[test]
fn withdraw_rule_fills_the_fees_to_the_last_unit() {
    let ctx = withdraw_ctx();
    let held = Some(Record::UserPool(position(1_000_000)));
    let room = Some(Record::Pool(pool(1_000_000, u64::MAX - 25_000)));
    assert_eq!(ctx.apply(room, held, "alpha-1").map(|given| given.pool.fee_amount), Ok(u64::MAX));
    let short = Some(Record::Pool(pool(1_000_000, u64::MAX - 24_999)));
    assert_eq!(ctx.apply(short, held, "alpha-1"), Err(AppErrorCode::AmountOverflow));
}

#[test]
fn is_covered_tells_what_the_pool_can_pay() {
    let ctx = withdraw_ctx();
    let held = Some(Record::UserPool(position(1_000_000)));
    assert!(ctx.is_covered(&Some(Record::Pool(pool(1_000_000, 0))), &held));
    assert!(!ctx.is_covered(&Some(Record::Pool(pool(999_999, 0))), &held));
    let elsewhere = Some(Record::UserPool(UserPoolAccount { pool: key(40), ..position(1_000_000) }));
    assert!(ctx.is_covered(&Some(Record::Pool(pool(0, 0))), &elsewhere));
    let greedy = Some(Record::Pool(PoolAccount { fee_rate: 10_001, ..pool(1_000_000, 0) }));
    assert!(!ctx.is_covered(&greedy, &held));
    assert!(ctx.is_covered(&None, &held));
    assert!(ctx.is_covered(&Some(Record::Pool(pool(0, 0))), &None));
    assert!(ctx.is_covered(&state(), &held));
    assert!(ctx.is_covered(&greedy, &state()));
}
