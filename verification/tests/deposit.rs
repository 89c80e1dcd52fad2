use amm_video::deposit::Deposit;
use amm_video::error::AmmError;
use amm_video::token::{Authority, MintId, TokenAccountId, TokenMintTo, TokenOp, TokenTransfer};

const ACCOUNTS: [TokenAccountId; 7] = [
    TokenAccountId::UserX,
    TokenAccountId::UserY,
    TokenAccountId::UserLp,
    TokenAccountId::VaultX,
    TokenAccountId::VaultY,
    TokenAccountId::TreasuryX,
    TokenAccountId::TreasuryY,
];

fn slot(id: TokenAccountId) -> usize {
    ACCOUNTS.iter().position(|a| *a == id).unwrap()
}

/// Applies a plan to balances the way the token program does on success.
fn apply(balances: &mut [u64; 7], ops: &[TokenOp]) {
    for op in ops {
        match op {
            TokenOp::Transfer(t) => {
                balances[slot(t.from)] = balances[slot(t.from)].checked_sub(t.amount).unwrap();
                balances[slot(t.to)] = balances[slot(t.to)].checked_add(t.amount).unwrap();
            }
            TokenOp::MintTo(m) => {
                balances[slot(m.to)] = balances[slot(m.to)].checked_add(m.amount).unwrap();
            }
        }
    }
}

fn empty_pool() -> Deposit {
    Deposit {
        locked: false,
        lp_supply: 0,
        vault_x_amount: 0,
        vault_y_amount: 0,
        mint_x_decimals: 6,
        mint_y_decimals: 6,
        lp_decimals: 6,
        config_seed: 123,
        config_bump: 254,
    }
}

fn funded_pool() -> Deposit {
    Deposit {
        lp_supply: 100_000_000,
        vault_x_amount: 200_000_000,
        vault_y_amount: 200_000_000,
        ..empty_pool()
    }
}

#[test]
pub fn test_deposit() {
    let pool = empty_pool();
    // The user holds 1_000_000_000 of each mint; the pool is empty.
    let mut balances = [1_000_000_000u64, 1_000_000_000, 0, 0, 0, 0, 0];
    let ops = pool.deposit(100_000_000, 200_000_000, 200_000_000).unwrap();
    apply(&mut balances, &ops);
    assert_eq!(balances[slot(TokenAccountId::VaultX)], 200_000_000);
    assert_eq!(balances[slot(TokenAccountId::VaultY)], 200_000_000);
    assert_eq!(balances[slot(TokenAccountId::UserLp)], 100_000_000);
}

#[test]
fn first_deposit_plan_is_exact() {
    let pool = empty_pool();
    let ops = pool.deposit(100_000_000, 200_000_000, 300_000_000).unwrap();
    assert_eq!(
        ops,
        vec![
            TokenOp::Transfer(TokenTransfer {
                from: TokenAccountId::UserX,
                to: TokenAccountId::VaultX,
                mint: MintId::X,
                authority: Authority::Signer,
                amount: 200_000_000,
                decimals: 6,
            }),
            TokenOp::Transfer(TokenTransfer {
                from: TokenAccountId::UserY,
                to: TokenAccountId::VaultY,
                mint: MintId::Y,
                authority: Authority::Signer,
                amount: 300_000_000,
                decimals: 6,
            }),
            TokenOp::MintTo(TokenMintTo {
                mint: MintId::Lp,
                to: TokenAccountId::UserLp,
                authority: Authority::Config,
                amount: 100_000_000,
                decimals: 6,
            }),
        ]
    );
}

#[test]
fn deposit_into_funded_pool_is_proportional() {
    let pool = funded_pool();
    let ops = pool.deposit(50_000_000, 150_000_000, 100_000_000).unwrap();
    let mut balances = [1_000_000_000u64, 1_000_000_000, 0, 200_000_000, 200_000_000, 0, 0];
    apply(&mut balances, &ops);
    assert_eq!(balances[slot(TokenAccountId::UserX)], 900_000_000);
    assert_eq!(balances[slot(TokenAccountId::VaultX)], 300_000_000);
    assert_eq!(balances[slot(TokenAccountId::VaultY)], 300_000_000);
    assert_eq!(balances[slot(TokenAccountId::UserLp)], 50_000_000);
}

#[test]
fn deposit_rounds_share_down() {
    let pool = Deposit { lp_supply: 3, vault_x_amount: 10, vault_y_amount: 11, ..empty_pool() };
    let ops = pool.deposit(1, 100, 100).unwrap();
    match (ops[0], ops[1]) {
        (TokenOp::Transfer(x), TokenOp::Transfer(y)) => {
            assert_eq!(x.amount, 3);
            assert_eq!(y.amount, 3);
        }
        _ => panic!("unexpected plan"),
    }
}

#[test]
fn deposit_rejects_locked_pool() {
    let pool = Deposit { locked: true, ..funded_pool() };
    assert_eq!(pool.deposit(1, 10, 10), Err(AmmError::PoolLocked));
}

#[test]
fn deposit_rejects_zero_lp_amount() {
    assert_eq!(funded_pool().deposit(0, 10, 10), Err(AmmError::InvalidAmount));
    assert_eq!(empty_pool().deposit(0, 10, 10), Err(AmmError::InvalidAmount));
}

#[test]
fn deposit_rejects_overflowing_share() {
    let pool = Deposit { vault_x_amount: u64::MAX, ..funded_pool() };
    assert_eq!(pool.deposit(2, u64::MAX, u64::MAX), Err(AmmError::LiquidityLessThanMinimum));
    let pool = Deposit { vault_y_amount: u64::MAX, ..funded_pool() };
    assert_eq!(pool.deposit(2, u64::MAX, u64::MAX), Err(AmmError::LiquidityLessThanMinimum));
}

#[test]
fn deposit_rejects_funded_vault_without_supply() {
    let pool = Deposit { vault_x_amount: 5, ..empty_pool() };
    assert_eq!(pool.deposit(1, 100, 100), Err(AmmError::LiquidityLessThanMinimum));
}

#[test]
fn deposit_rejects_exceeding_limits() {
    let pool = funded_pool();
    assert_eq!(pool.deposit(50_000_000, 99_999_999, 100_000_000), Err(AmmError::CurveError));
    assert_eq!(pool.deposit(50_000_000, 100_000_000, 99_999_999), Err(AmmError::CurveError));
    assert!(pool.deposit(50_000_000, 100_000_000, 100_000_000).is_ok());
}

#[test]
fn transfer_tokens_selects_mint() {
    let pool = Deposit { mint_x_decimals: 6, mint_y_decimals: 9, ..empty_pool() };
    let x = pool.transfer_tokens(true, 7);
    assert_eq!((x.from, x.to, x.mint, x.decimals, x.amount), (TokenAccountId::UserX, TokenAccountId::VaultX, MintId::X, 6, 7));
    let y = pool.transfer_tokens(false, 8);
    assert_eq!((y.from, y.to, y.mint, y.decimals, y.amount), (TokenAccountId::UserY, TokenAccountId::VaultY, MintId::Y, 9, 8));
    assert_eq!(y.authority, Authority::Signer);
}

#[test]
fn mint_lp_tokens_is_signed_by_config() {
    let pool = Deposit { lp_decimals: 9, ..empty_pool() };
    let m = pool.mint_lp_tokens(42);
    assert_eq!(
        m,
        TokenMintTo { mint: MintId::Lp, to: TokenAccountId::UserLp, authority: Authority::Config, amount: 42, decimals: 9 }
    );
}

#[test]
fn deposit_signer_seeds() {
    let pool = Deposit { config_seed: 0x0102_0304_0506_0708, config_bump: 253, ..empty_pool() };
    assert_eq!(
        pool.signer_seeds(),
        vec![b"config".to_vec(), vec![8, 7, 6, 5, 4, 3, 2, 1], vec![253]]
    );
}
