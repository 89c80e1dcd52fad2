use vstd::prelude::*;

use crate::error::AmmError;
use crate::token::{
    account_mint, config_seeds, config_signer_seeds, inflow, minted, outflow, plan_is_authorised, plan_is_routed, transfers_carry_decimals, lp_mints_carry_decimals,
    Authority, MintId, TokenAccountId, TokenMintTo, TokenOp, TokenTransfer,
};

verus! {

/// What the `deposit` instruction reads of its accounts: the config's lock
/// flag and derivation seeds, the LP mint's supply, the vaults' balances and
/// the mints' decimals.
#[derive(Debug, Clone, Copy, PartialEq, Eq, Structural)]
pub struct Deposit {
    pub locked: bool,
    pub lp_supply: u64,
    pub vault_x_amount: u64,
    pub vault_y_amount: u64,
    pub mint_x_decimals: u8,
    pub mint_y_decimals: u8,
    pub lp_decimals: u8,
    pub config_seed: u64,
    pub config_bump: u8,
}

impl Deposit {
    /// The pool holds nothing yet: no LP tokens and empty vaults.
    pub open spec fn is_empty_pool(self) -> bool {
        self.lp_supply == 0 && self.vault_x_amount == 0 && self.vault_y_amount == 0
    }

    /// The product `lp_amount * reserve` fits in a `u64`.
    pub open spec fn product_fits(lp_amount: u64, reserve: u64) -> bool {
        lp_amount * reserve <= u64::MAX
    }

    /// The amounts of X and Y that a deposit minting `lp_amount` LP tokens
    /// takes from the user, given the limits `max_x` and `max_y`, or the error
    /// it fails with. Into an empty pool the user puts exactly the limits; into
    /// a funded one, the share `lp_amount / lp_supply` of each vault, rounded
    /// down.
    pub open spec fn required_amounts(self, lp_amount: u64, max_x: u64, max_y: u64) -> Result<
        (u64, u64),
        AmmError,
    > {
        if self.locked {
            Err(AmmError::PoolLocked)
        } else if lp_amount == 0 {
            Err(AmmError::InvalidAmount)
        } else if self.is_empty_pool() {
            Ok((max_x, max_y))
        } else if self.lp_supply == 0 || !Self::product_fits(lp_amount, self.vault_x_amount)
            || !Self::product_fits(lp_amount, self.vault_y_amount) {
            Err(AmmError::LiquidityLessThanMinimum)
        } else {
            let x = (lp_amount * self.vault_x_amount) / (self.lp_supply as int);
            let y = (lp_amount * self.vault_y_amount) / (self.lp_supply as int);
            if max_x < x || max_y < y {
                Err(AmmError::CurveError)
            } else {
                Ok((x as u64, y as u64))
            }
        }
    }

    /// The transfer of `amount` from the user's account to the pool's vault,
    /// of mint X when `is_x` holds and of mint Y otherwise, signed by the user.
    pub open spec fn user_to_vault(self, is_x: bool, amount: u64) -> TokenTransfer {
        TokenTransfer {
            from: if is_x { TokenAccountId::UserX } else { TokenAccountId::UserY },
            to: if is_x { TokenAccountId::VaultX } else { TokenAccountId::VaultY },
            mint: if is_x { MintId::X } else { MintId::Y },
            authority: Authority::Signer,
            amount,
            decimals: if is_x { self.mint_x_decimals } else { self.mint_y_decimals },
        }
    }

    /// The mint of `amount` LP tokens into the user's LP account, signed by
    /// the config account.
    pub open spec fn lp_mint(self, amount: u64) -> TokenMintTo {
        TokenMintTo {
            mint: MintId::Lp,
            to: TokenAccountId::UserLp,
            authority: Authority::Config,
            amount,
            decimals: self.lp_decimals,
        }
    }

    /// A deposit's operations: `x` into vault X, `y` into vault Y, then
    /// `lp_amount` LP tokens to the user.
    pub open spec fn deposit_plan(self, x: u64, y: u64, lp_amount: u64) -> Seq<TokenOp> {
        seq![
            TokenOp::Transfer(self.user_to_vault(true, x)),
            TokenOp::Transfer(self.user_to_vault(false, y)),
            TokenOp::MintTo(self.lp_mint(lp_amount)),
        ]
    }

    /// Decides a deposit of liquidity for `lp_amount` LP tokens, taking at
    /// most `amount_x` of X and `amount_y` of Y, and returns the token
    /// operations that carry it out.
    pub fn deposit(&self, lp_amount: u64, amount_x: u64, amount_y: u64) -> (res: Result<
        Vec<TokenOp>,
        AmmError,
    >)
        ensures
            match self.required_amounts(lp_amount, amount_x, amount_y) {
                Ok((x, y)) => res matches Ok(ops) && ops@ == self.deposit_plan(x, y, lp_amount),
                Err(e) => res == Err::<Vec<TokenOp>, AmmError>(e),
            },
            res matches Ok(ops) ==> transfers_carry_decimals(
                ops@,
                self.mint_x_decimals,
                self.mint_y_decimals,
            ) && lp_mints_carry_decimals(ops@, self.lp_decimals),
            !self.locked && lp_amount > 0 && self.lp_supply > 0 && lp_amount * self.vault_x_amount
                <= u64::MAX && lp_amount * self.vault_y_amount <= u64::MAX && amount_x
                >= lp_amount * self.vault_x_amount / (self.lp_supply as int) && amount_y
                >= lp_amount * self.vault_y_amount / (self.lp_supply as int) ==> res is Ok,
            !self.locked && lp_amount > 0 && self.lp_supply == 0 && self.vault_x_amount == 0
                && self.vault_y_amount == 0 ==> res is Ok,
    {
        proof {
            lemma_deposit_succeeds(*self, lp_amount, amount_x, amount_y);
        }
        if self.locked {
            return Err(AmmError::PoolLocked);
        }
        if lp_amount == 0 {
            return Err(AmmError::InvalidAmount);
        }
        let (x, y) = if self.lp_supply == 0 && self.vault_x_amount == 0 && self.vault_y_amount
            == 0 {
            (amount_x, amount_y)
        } else {
            let x = match lp_amount.checked_mul(self.vault_x_amount) {
                Some(product) => match product.checked_div(self.lp_supply) {
                    Some(share) => share,
                    None => return Err(AmmError::LiquidityLessThanMinimum),
                },
                None => return Err(AmmError::LiquidityLessThanMinimum),
            };
            let y = match lp_amount.checked_mul(self.vault_y_amount) {
                Some(product) => match product.checked_div(self.lp_supply) {
                    Some(share) => share,
                    None => return Err(AmmError::LiquidityLessThanMinimum),
                },
                None => return Err(AmmError::LiquidityLessThanMinimum),
            };
            (x, y)
        };
        if amount_x < x {
            return Err(AmmError::CurveError);
        }
        if amount_y < y {
            return Err(AmmError::CurveError);
        }
        let ops: Vec<TokenOp> = vec![
            TokenOp::Transfer(self.transfer_tokens(true, x)),
            TokenOp::Transfer(self.transfer_tokens(false, y)),
            TokenOp::MintTo(self.mint_lp_tokens(lp_amount)),
        ];
        assert(ops@ =~= self.deposit_plan(x, y, lp_amount));
        proof {
            lemma_deposit_flows(*self, x, y, lp_amount);
        }
        Ok(ops)
    }

    /// The transfer that moves `amount` of the user's X (when `is_x`) or Y
    /// into the matching vault.
    pub fn transfer_tokens(&self, is_x: bool, amount: u64) -> (res: TokenTransfer)
        ensures
            res == self.user_to_vault(is_x, amount),
    {
        TokenTransfer {
            from: if is_x { TokenAccountId::UserX } else { TokenAccountId::UserY },
            to: if is_x { TokenAccountId::VaultX } else { TokenAccountId::VaultY },
            mint: if is_x { MintId::X } else { MintId::Y },
            authority: Authority::Signer,
            amount,
            decimals: if is_x { self.mint_x_decimals } else { self.mint_y_decimals },
        }
    }

    /// The mint of `mint_amount` LP tokens to the user, signed by the config.
    pub fn mint_lp_tokens(&self, mint_amount: u64) -> (res: TokenMintTo)
        ensures
            res == self.lp_mint(mint_amount),
    {
        TokenMintTo {
            mint: MintId::Lp,
            to: TokenAccountId::UserLp,
            authority: Authority::Config,
            amount: mint_amount,
            decimals: self.lp_decimals,
        }
    }

    /// The seeds with which the config account signs this deposit's LP mint.
    pub fn signer_seeds(&self) -> (res: Vec<Vec<u8>>)
        ensures
            res@.map_values(|v: Vec<u8>| v@) == config_seeds(self.config_seed, self.config_bump),
    {
        config_signer_seeds(self.config_seed, self.config_bump)
    }
}


/// The tokens are split exactly: `amount == share * supply + rest` with
/// `0 <= rest < supply`, where `share` is `amount / supply`.
proof fn lemma_floor_share(amount: int, supply: int)
    requires
        supply > 0,
        amount >= 0,
    ensures
        (amount / supply) * supply <= amount,
        amount < (amount / supply + 1) * supply,
{
    vstd::arithmetic::div_mod::lemma_fundamental_div_mod(amount, supply);
    vstd::arithmetic::div_mod::lemma_mod_pos_bound(amount, supply);
    let q = amount / supply;
    assert(q * supply == supply * q) by (nonlinear_arith);
    assert((q + 1) * supply == q * supply + supply) by (nonlinear_arith);
}

/// A deposit into a funded pool takes, of each vault's mint, the
/// `lp_amount / lp_supply` share of that vault rounded down: what it takes
/// times the supply is at most `lp_amount` times the vault, and less than
/// one supply below it. So the vault's reserve per LP token after the deposit
/// is at most what it was, and falls by less than one token.
pub proof fn lemma_deposit_is_proportional(pool: Deposit, lp_amount: u64, max_x: u64, max_y: u64)
    requires
        !pool.is_empty_pool(),
        pool.required_amounts(lp_amount, max_x, max_y) is Ok,
    ensures
        pool.required_amounts(lp_amount, max_x, max_y) matches Ok((x, y)) && {
            let s = pool.lp_supply as int;
            let vx = pool.vault_x_amount as int;
            let vy = pool.vault_y_amount as int;
            &&& x * s <= lp_amount * vx < (x + 1) * s
            &&& y * s <= lp_amount * vy < (y + 1) * s
            &&& (vx + x) * s <= vx * (s + lp_amount) < (vx + x) * s + s
            &&& (vy + y) * s <= vy * (s + lp_amount) < (vy + y) * s + s
        },
{
    let s = pool.lp_supply as int;
    let vx = pool.vault_x_amount as int;
    let vy = pool.vault_y_amount as int;
    let l = lp_amount as int;
    assert(s > 0);
    assert(l * vx >= 0) by (nonlinear_arith)
        requires
            l >= 0,
            vx >= 0,
    ;
    assert(l * vy >= 0) by (nonlinear_arith)
        requires
            l >= 0,
            vy >= 0,
    ;
    lemma_floor_share(l * vx, s);
    lemma_floor_share(l * vy, s);
    let x = (l * vx) / s;
    let y = (l * vy) / s;
    assert((vx + x) * s == vx * s + x * s) by (nonlinear_arith);
    assert(vx * (s + l) == vx * s + l * vx) by (nonlinear_arith);
    assert((vy + y) * s == vy * s + y * s) by (nonlinear_arith);
    assert(vy * (s + l) == vy * s + l * vy) by (nonlinear_arith);
    assert(x <= max_x && y <= max_y);
    assert((x + 1) * s == x * s + s) by (nonlinear_arith);
    assert((y + 1) * s == y * s + s) by (nonlinear_arith);
    assert(pool.required_amounts(lp_amount, max_x, max_y) == Ok::<(u64, u64), AmmError>((x as u64, y as u64)));
    assert(x * s <= l * vx < (x + 1) * s);
    assert(y * s <= l * vy < (y + 1) * s);
}

/// A deposit never takes more than the limits the user set, and into an
/// empty pool it takes exactly those limits.
pub proof fn lemma_deposit_within_limits(pool: Deposit, lp_amount: u64, max_x: u64, max_y: u64)
    requires
        pool.required_amounts(lp_amount, max_x, max_y) is Ok,
    ensures
        pool.required_amounts(lp_amount, max_x, max_y) matches Ok((x, y)) && {
            &&& x <= max_x
            &&& y <= max_y
            &&& pool.is_empty_pool() ==> x == max_x && y == max_y
        },
{
}

/// An unlocked pool accepts a deposit of some LP tokens into an empty pool at
/// exactly the user's amounts; and into a funded pool (positive LP supply) it
/// accepts one whose products `lp_amount * vault` fit in a `u64` and whose
/// limits cover the proportional shares, taking exactly those shares. The
/// size of `lp_amount` against the supply or the vaults plays no part.
pub proof fn lemma_deposit_succeeds(pool: Deposit, lp_amount: u64, max_x: u64, max_y: u64)
    ensures
        !pool.locked && lp_amount > 0 && pool.lp_supply == 0 && pool.vault_x_amount == 0
            && pool.vault_y_amount == 0 ==> pool.required_amounts(lp_amount, max_x, max_y) == Ok::<
            (u64, u64),
            AmmError,
        >((max_x, max_y)),
        ({
            let s = pool.lp_supply as int;
            let x = lp_amount * pool.vault_x_amount / s;
            let y = lp_amount * pool.vault_y_amount / s;
            !pool.locked && lp_amount > 0 && s > 0 && lp_amount * pool.vault_x_amount <= u64::MAX
                && lp_amount * pool.vault_y_amount <= u64::MAX && max_x >= x && max_y >= y
                ==> pool.required_amounts(lp_amount, max_x, max_y) == Ok::<(u64, u64), AmmError>(
                (x as u64, y as u64),
            ) && x <= u64::MAX && y <= u64::MAX
        }),
{
}

/// A deposit is refused only for the reasons the pool has: a lock, no LP
/// tokens asked for, a funded pool whose LP supply is zero or whose products
/// `lp_amount * vault` overflow a `u64`, or shares beyond the user's limits.
pub proof fn lemma_deposit_failures(pool: Deposit, lp_amount: u64, max_x: u64, max_y: u64)
    ensures
        pool.required_amounts(lp_amount, max_x, max_y) == Err::<(u64, u64), AmmError>(
            AmmError::LiquidityLessThanMinimum,
        ) ==> !pool.locked && lp_amount > 0 && !(pool.lp_supply == 0 && pool.vault_x_amount == 0
            && pool.vault_y_amount == 0) && (pool.lp_supply == 0 || lp_amount
            * pool.vault_x_amount > u64::MAX || lp_amount * pool.vault_y_amount > u64::MAX),
        pool.required_amounts(lp_amount, max_x, max_y) == Err::<(u64, u64), AmmError>(
            AmmError::CurveError,
        ) ==> !pool.locked && lp_amount > 0 && pool.lp_supply > 0 && (max_x < lp_amount
            * pool.vault_x_amount / (pool.lp_supply as int) || max_y < lp_amount
            * pool.vault_y_amount / (pool.lp_supply as int)),
        pool.required_amounts(lp_amount, max_x, max_y) is Err ==> pool.locked || lp_amount == 0
            || pool.required_amounts(lp_amount, max_x, max_y) == Err::<(u64, u64), AmmError>(
            AmmError::LiquidityLessThanMinimum,
        ) || pool.required_amounts(lp_amount, max_x, max_y) == Err::<(u64, u64), AmmError>(
            AmmError::CurveError,
        ),
{
}

/// A locked pool refuses every deposit, and a deposit of no LP tokens is
/// refused by an unlocked pool, whatever the limits.
pub proof fn lemma_deposit_refusals(pool: Deposit, lp_amount: u64, max_x: u64, max_y: u64)
    ensures
        pool.locked ==> pool.required_amounts(lp_amount, max_x, max_y) == Err::<(u64, u64), AmmError>(
            AmmError::PoolLocked,
        ),
        !pool.locked && lp_amount == 0 ==> pool.required_amounts(lp_amount, max_x, max_y) == Err::<
            (u64, u64),
            AmmError,
        >(AmmError::InvalidAmount),
{
}

/// A deposit's plan moves `x` from the user's X account to vault X, `y` from
/// the user's Y account to vault Y, creates `lp_amount` LP tokens in the
/// user's LP account, takes nothing out of the vaults or the treasury, keeps
/// every operation within one mint, has each signed by the owner of the
/// account it debits (the LP mint by the config account) and carry its
/// mint's decimals, in three operations.
pub proof fn lemma_deposit_flows(pool: Deposit, x: u64, y: u64, lp_amount: u64)
    ensures
        ({
            let ops = pool.deposit_plan(x, y, lp_amount);
            &&& outflow(ops, TokenAccountId::UserX) == x
            &&& inflow(ops, TokenAccountId::VaultX) == x
            &&& outflow(ops, TokenAccountId::UserY) == y
            &&& inflow(ops, TokenAccountId::VaultY) == y
            &&& inflow(ops, TokenAccountId::UserLp) == lp_amount
            &&& minted(ops, MintId::Lp) == lp_amount
            &&& minted(ops, MintId::X) == 0
            &&& minted(ops, MintId::Y) == 0
            &&& outflow(ops, TokenAccountId::VaultX) == 0
            &&& outflow(ops, TokenAccountId::VaultY) == 0
            &&& inflow(ops, TokenAccountId::TreasuryX) == 0
            &&& inflow(ops, TokenAccountId::TreasuryY) == 0
            &&& plan_is_routed(ops)
            &&& plan_is_authorised(ops)
            &&& transfers_carry_decimals(ops, pool.mint_x_decimals, pool.mint_y_decimals)
            &&& lp_mints_carry_decimals(ops, pool.lp_decimals)
            &&& ops.len() == 3
        }),
{
    let ops = pool.deposit_plan(x, y, lp_amount);
    reveal_with_fuel(outflow, 4);
    reveal_with_fuel(inflow, 4);
    reveal_with_fuel(minted, 4);
    assert(ops.drop_last() =~= seq![ops[0], ops[1]]);
    assert(ops.drop_last().drop_last() =~= seq![ops[0]]);
    assert(ops.drop_last().drop_last().drop_last() =~= Seq::<TokenOp>::empty());
}

} // verus!
