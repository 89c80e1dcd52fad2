use vstd::prelude::*;

use crate::error::AmmError;
use crate::token::{
    config_seeds, config_signer_seeds, inflow, minted, outflow, plan_is_authorised,
    plan_is_routed, transfers_carry_decimals, Authority, MintId, TokenAccountId, TokenOp, TokenTransfer,
};

verus! {

/// The side of the pool that a swap puts tokens into.
#[derive(Debug, Clone, Copy, PartialEq, Eq, Structural)]
pub enum LiquidityPair {
    X,
    Y,
}

/// The constant-product curve's answer to a swap: what the user deposits
/// (the fee included), what the user withdraws, and the fee, all in units of
/// the respective mints.
#[derive(Debug, Clone, Copy, PartialEq, Eq, Structural)]
pub struct SwapResult {
    pub deposit: u64,
    pub withdraw: u64,
    pub fee: u64,
}

/// What a swap asks of the constant-product curve: the reserves `x` and `y`,
/// the LP supply `l`, the fee in basis points, the decimal precision, the
/// input side, the amount in and the least amount out the user accepts.
#[derive(Debug, Clone, Copy, PartialEq, Eq, Structural)]
pub struct CurveQuery {
    pub x: u64,
    pub y: u64,
    pub l: u64,
    pub fee: u16,
    pub precision: u8,
    pub pair: LiquidityPair,
    pub amount: u64,
    pub min: u64,
}

/// The decimal precision at which the pool asks the curve to work.
pub const CURVE_PRECISION: u8 = 6;

/// What the `swap` instruction reads of its accounts: the config's lock flag,
/// fee and derivation seeds, the vaults' balances, the LP supply and the
/// mints' decimals.
#[derive(Debug, Clone, Copy, PartialEq, Eq, Structural)]
pub struct Swap {
    pub locked: bool,
    pub vault_x_amount: u64,
    pub vault_y_amount: u64,
    pub lp_supply: u64,
    pub fee: u16,
    pub mint_x_decimals: u8,
    pub mint_y_decimals: u8,
    pub config_seed: u64,
    pub config_bump: u8,
}

/// The user's account of the input mint.
pub open spec fn user_in(is_x: bool) -> TokenAccountId {
    if is_x { TokenAccountId::UserX } else { TokenAccountId::UserY }
}

/// The user's account of the output mint.
pub open spec fn user_out(is_x: bool) -> TokenAccountId {
    if is_x { TokenAccountId::UserY } else { TokenAccountId::UserX }
}

/// The pool's vault of the input mint.
pub open spec fn vault_in(is_x: bool) -> TokenAccountId {
    if is_x { TokenAccountId::VaultX } else { TokenAccountId::VaultY }
}

/// The pool's vault of the output mint.
pub open spec fn vault_out(is_x: bool) -> TokenAccountId {
    if is_x { TokenAccountId::VaultY } else { TokenAccountId::VaultX }
}

/// The treasury's account of the input mint, in which the protocol's fee is paid.
pub open spec fn treasury_in(is_x: bool) -> TokenAccountId {
    if is_x { TokenAccountId::TreasuryX } else { TokenAccountId::TreasuryY }
}

/// The treasury's account of the output mint.
pub open spec fn treasury_out(is_x: bool) -> TokenAccountId {
    if is_x { TokenAccountId::TreasuryY } else { TokenAccountId::TreasuryX }
}

/// The input mint.
pub open spec fn mint_in(is_x: bool) -> MintId {
    if is_x { MintId::X } else { MintId::Y }
}

/// The output mint.
pub open spec fn mint_out(is_x: bool) -> MintId {
    if is_x { MintId::Y } else { MintId::X }
}

/// The treasury's share of a swap's fee: half of it, rounded down.
pub open spec fn treasury_share(quote: SwapResult) -> u64 {
    (quote.fee / 2) as u64
}

impl Swap {
    /// The decimals of the input mint.
    pub open spec fn decimals_in(self, is_x: bool) -> u8 {
        if is_x { self.mint_x_decimals } else { self.mint_y_decimals }
    }

    /// The decimals of the output mint.
    pub open spec fn decimals_out(self, is_x: bool) -> u8 {
        if is_x { self.mint_y_decimals } else { self.mint_x_decimals }
    }

    /// A transfer out of the user's account, signed by the user.
    pub open spec fn user_transfer(
        from: TokenAccountId,
        to: TokenAccountId,
        mint: MintId,
        amount: u64,
        decimals: u8,
    ) -> TokenTransfer {
        TokenTransfer { from, to, mint, authority: Authority::Signer, amount, decimals }
    }

    /// The payout of `amount` of the output mint from its vault to the user,
    /// signed by the config account.
    pub open spec fn payout(self, is_x: bool, amount: u64) -> TokenTransfer {
        TokenTransfer {
            from: vault_out(is_x),
            to: user_out(is_x),
            mint: mint_out(is_x),
            authority: Authority::Config,
            amount,
            decimals: self.decimals_out(is_x),
        }
    }

    /// Why a swap of `amount` fails, given the curve's answer (`None` when the
    /// curve refused), or the answer it goes on with.
    pub open spec fn swap_decision(self, amount: u64, quote: Option<SwapResult>) -> Result<
        SwapResult,
        AmmError,
    > {
        if self.locked {
            Err(AmmError::PoolLocked)
        } else if amount == 0 {
            Err(AmmError::InvalidAmount)
        } else {
            match quote {
                None => Err(AmmError::SlippageExceeded),
                Some(q) => if treasury_share(q) > q.deposit {
                    Err(AmmError::Underflow)
                } else {
                    Ok(q)
                },
            }
        }
    }

    /// A swap's operations: the pool's part of the deposit into the input
    /// vault, the treasury's half of the fee (when not zero) into the
    /// treasury's account of the same mint, then the payout from the other
    /// vault.
    pub open spec fn swap_plan(self, is_x: bool, quote: SwapResult) -> Seq<TokenOp> {
        let share = treasury_share(quote);
        let to_vault = TokenOp::Transfer(
            Self::user_transfer(
                user_in(is_x),
                vault_in(is_x),
                mint_in(is_x),
                (quote.deposit - share) as u64,
                self.decimals_in(is_x),
            ),
        );
        let to_treasury = TokenOp::Transfer(
            Self::user_transfer(
                user_in(is_x),
                treasury_in(is_x),
                mint_in(is_x),
                share,
                self.decimals_in(is_x),
            ),
        );
        let out = TokenOp::Transfer(self.payout(is_x, quote.withdraw));
        if share > 0 {
            seq![to_vault, to_treasury, out]
        } else {
            seq![to_vault, out]
        }
    }

    /// What a swap of `amount` of X (when `is_x`) or Y, accepting no less than
    /// `min` out, asks of the curve: the pool's reserves, supply and fee at the
    /// pool's precision; or why it fails before asking.
    pub open spec fn curve_request(self, is_x: bool, amount: u64, min: u64) -> Result<
        CurveQuery,
        AmmError,
    > {
        if self.locked {
            Err(AmmError::PoolLocked)
        } else if amount == 0 {
            Err(AmmError::InvalidAmount)
        } else {
            Ok(
                CurveQuery {
                    x: self.vault_x_amount,
                    y: self.vault_y_amount,
                    l: self.lp_supply,
                    fee: self.fee,
                    precision: CURVE_PRECISION,
                    pair: if is_x { LiquidityPair::X } else { LiquidityPair::Y },
                    amount,
                    min,
                },
            )
        }
    }

    /// The question this swap puts to the constant-product curve, or the
    /// error it fails with before asking.
    pub fn swap_request(&self, is_x: bool, amount: u64, min: u64) -> (res: Result<
        CurveQuery,
        AmmError,
    >)
        ensures
            res == self.curve_request(is_x, amount, min),
            res matches Ok(q) ==> q.x == self.vault_x_amount && q.y == self.vault_y_amount && q.l
                == self.lp_supply && q.fee == self.fee && q.precision == 6 && q.amount == amount
                && q.min == min && (q.pair == LiquidityPair::X <==> is_x),
            res is Ok <==> !self.locked && amount > 0,
    {
        proof {
            lemma_request_hands_pool_state(*self, is_x, amount, min);
        }
        if self.locked {
            return Err(AmmError::PoolLocked);
        }
        if amount == 0 {
            return Err(AmmError::InvalidAmount);
        }
        let pair = if is_x { LiquidityPair::X } else { LiquidityPair::Y };
        Ok(
            CurveQuery {
                x: self.vault_x_amount,
                y: self.vault_y_amount,
                l: self.lp_supply,
                fee: self.fee,
                precision: CURVE_PRECISION,
                pair,
                amount,
                min,
            },
        )
    }

    /// Decides a swap of `amount` of X (when `is_x`) or Y, given the curve's
    /// answer to `swap_request` (`None` when the curve refused), and returns
    /// the token operations that carry it out.
    pub fn swap(&self, is_x: bool, amount: u64, quote: Option<SwapResult>) -> (res: Result<
        Vec<TokenOp>,
        AmmError,
    >)
        ensures
            match self.swap_decision(amount, quote) {
                Ok(q) => res matches Ok(ops) && ops@ == self.swap_plan(is_x, q),
                Err(e) => res == Err::<Vec<TokenOp>, AmmError>(e),
            },
            res matches Ok(ops) ==> transfers_carry_decimals(
                ops@,
                self.mint_x_decimals,
                self.mint_y_decimals,
            ),
            (!self.locked && amount > 0 && quote is Some && quote->0.fee / 2 <= quote->0.deposit) ==> res is Ok,
    {
        proof {
            lemma_swap_succeeds(*self, amount, quote);
        }
        if self.locked {
            return Err(AmmError::PoolLocked);
        }
        if amount == 0 {
            return Err(AmmError::InvalidAmount);
        }
        let swap_result = match quote {
            Some(q) => q,
            None => return Err(AmmError::SlippageExceeded),
        };
        let treasury_fee = swap_result.fee / 2;
        let vault_deposit = match swap_result.deposit.checked_sub(treasury_fee) {
            Some(rest) => rest,
            None => return Err(AmmError::Underflow),
        };
        let (user_from, vault_to, treasury_to, mint, decimals) = if is_x {
            (
                TokenAccountId::UserX,
                TokenAccountId::VaultX,
                TokenAccountId::TreasuryX,
                MintId::X,
                self.mint_x_decimals,
            )
        } else {
            (
                TokenAccountId::UserY,
                TokenAccountId::VaultY,
                TokenAccountId::TreasuryY,
                MintId::Y,
                self.mint_y_decimals,
            )
        };
        let mut ops: Vec<TokenOp> = Vec::new();
        ops.push(TokenOp::Transfer(self.deposit_to(user_from, vault_to, mint, vault_deposit, decimals)));
        if treasury_fee > 0 {
            ops.push(
                TokenOp::Transfer(self.deposit_to(user_from, treasury_to, mint, treasury_fee, decimals)),
            );
        }
        ops.push(TokenOp::Transfer(self.withdraw_tokens(is_x, swap_result.withdraw)));
        assert(ops@ =~= self.swap_plan(is_x, swap_result));
        proof {
            lemma_swap_flows(*self, is_x, swap_result);
        }
        Ok(ops)
    }

    /// The transfer of `amount` of `mint` (with `decimals`) from the user's
    /// account `from` to `to`, signed by the user.
    pub fn deposit_to(
        &self,
        from: TokenAccountId,
        to: TokenAccountId,
        mint: MintId,
        amount: u64,
        decimals: u8,
    ) -> (res: TokenTransfer)
        ensures
            res == Self::user_transfer(from, to, mint, amount, decimals),
    {
        TokenTransfer { from, to, mint, authority: Authority::Signer, amount, decimals }
    }

    /// The payout of `amount` of the output mint of a swap whose input is X
    /// (when `is_x`) or Y, from its vault to the user, signed by the config.
    pub fn withdraw_tokens(&self, is_x: bool, amount: u64) -> (res: TokenTransfer)
        ensures
            res == self.payout(is_x, amount),
    {
        if is_x {
            TokenTransfer {
                from: TokenAccountId::VaultY,
                to: TokenAccountId::UserY,
                mint: MintId::Y,
                authority: Authority::Config,
                amount,
                decimals: self.mint_y_decimals,
            }
        } else {
            TokenTransfer {
                from: TokenAccountId::VaultX,
                to: TokenAccountId::UserX,
                mint: MintId::X,
                authority: Authority::Config,
                amount,
                decimals: self.mint_x_decimals,
            }
        }
    }

    /// The seeds with which the config account signs this swap's payout.
    pub fn signer_seeds(&self) -> (res: Vec<Vec<u8>>)
        ensures
            res@.map_values(|v: Vec<u8>| v@) == config_seeds(self.config_seed, self.config_bump),
    {
        config_signer_seeds(self.config_seed, self.config_bump)
    }
}


/// The checks made before the curve is asked are the ones the swap makes:
/// when asking fails, the swap fails with the same error whatever the curve
/// would have answered, and when asking succeeds, the swap fails before the
/// curve's answer on no input.
pub proof fn lemma_request_agrees_with_swap(
    pool: Swap,
    is_x: bool,
    amount: u64,
    min: u64,
    quote: Option<SwapResult>,
)
    ensures
        pool.curve_request(is_x, amount, min) matches Err(e) ==> pool.swap_decision(amount, quote)
            == Err::<SwapResult, AmmError>(e),
        pool.curve_request(is_x, amount, min) is Ok ==> pool.swap_decision(amount, quote) == (
        match quote {
            None => Err(AmmError::SlippageExceeded),
            Some(q) => if treasury_share(q) > q.deposit {
                Err(AmmError::Underflow)
            } else {
                Ok(q)
            },
        }),
{
}

/// An unlocked pool asks the curve about every swap of a positive amount,
/// whatever its reserves: the query holds vault X's balance as `x`, vault
/// Y's as `y`, the LP supply as `l`, the pool's fee, precision 6, the input
/// side, the amount in and the least amount out.
pub proof fn lemma_request_hands_pool_state(pool: Swap, is_x: bool, amount: u64, min: u64)
    ensures
        !pool.locked && amount > 0 ==> (pool.curve_request(is_x, amount, min) matches Ok(q) && q.x
            == pool.vault_x_amount && q.y == pool.vault_y_amount && q.l == pool.lp_supply && q.fee
            == pool.fee && q.precision == 6 && q.amount == amount && q.min == min && (q.pair
            == LiquidityPair::X <==> is_x)),
        pool.curve_request(is_x, amount, min) is Err ==> pool.locked || amount == 0,
{
}

/// An unlocked pool carries out every swap of a positive amount that the
/// curve quotes, as long as the treasury's half of the fee fits in the
/// deposit; it refuses it only when the curve refuses, with
/// `SlippageExceeded`, or when that half exceeds the deposit, with `Underflow`.
pub proof fn lemma_swap_succeeds(pool: Swap, amount: u64, quote: Option<SwapResult>)
    ensures
        !pool.locked && amount > 0 ==> match quote {
            None => pool.swap_decision(amount, quote) == Err::<SwapResult, AmmError>(
                AmmError::SlippageExceeded,
            ),
            Some(q) => if q.fee / 2 <= q.deposit {
                pool.swap_decision(amount, quote) == Ok::<SwapResult, AmmError>(q)
            } else {
                pool.swap_decision(amount, quote) == Err::<SwapResult, AmmError>(
                    AmmError::Underflow,
                )
            },
        },
        pool.swap_decision(amount, quote) is Ok ==> !pool.locked && amount > 0,
{
}

/// A swap's plan takes exactly the curve's deposit from the user's account of
/// the input mint, puts all of it but the treasury's share into the input
/// vault and that share into the treasury's account of the input mint, pays
/// exactly the curve's withdrawal out of the output vault into the user's
/// account of the output mint, creates no tokens, touches nothing else, keeps
/// each operation within one mint, has each signed by the owner of the
/// account it debits and carry its mint's decimals, and makes no transfer to
/// the treasury when its share is zero.
pub proof fn lemma_swap_flows(pool: Swap, is_x: bool, quote: SwapResult)
    requires
        treasury_share(quote) <= quote.deposit,
    ensures
        ({
            let ops = pool.swap_plan(is_x, quote);
            &&& outflow(ops, user_in(is_x)) == quote.deposit
            &&& inflow(ops, vault_in(is_x)) == quote.deposit - treasury_share(quote)
            &&& inflow(ops, treasury_in(is_x)) == treasury_share(quote)
            &&& outflow(ops, vault_out(is_x)) == quote.withdraw
            &&& inflow(ops, user_out(is_x)) == quote.withdraw
            &&& outflow(ops, vault_in(is_x)) == 0
            &&& inflow(ops, vault_out(is_x)) == 0
            &&& outflow(ops, user_out(is_x)) == 0
            &&& inflow(ops, user_in(is_x)) == 0
            &&& inflow(ops, treasury_out(is_x)) == 0
            &&& inflow(ops, TokenAccountId::UserLp) == 0
            &&& minted(ops, MintId::X) == 0
            &&& minted(ops, MintId::Y) == 0
            &&& minted(ops, MintId::Lp) == 0
            &&& plan_is_routed(ops)
            &&& plan_is_authorised(ops)
            &&& transfers_carry_decimals(ops, pool.mint_x_decimals, pool.mint_y_decimals)
            &&& ops.len() == if quote.fee / 2 > 0 { 3int } else { 2int }
        }),
{
    let ops = pool.swap_plan(is_x, quote);
    reveal_with_fuel(outflow, 4);
    reveal_with_fuel(inflow, 4);
    reveal_with_fuel(minted, 4);
    if treasury_share(quote) > 0 {
        assert(ops.drop_last() =~= seq![ops[0], ops[1]]);
        assert(ops.drop_last().drop_last() =~= seq![ops[0]]);
        assert(ops.drop_last().drop_last().drop_last() =~= Seq::<TokenOp>::empty());
    } else {
        assert(ops.drop_last() =~= seq![ops[0]]);
        assert(ops.drop_last().drop_last() =~= Seq::<TokenOp>::empty());
    }
}

/// Of a swap's fee, half (rounded down) goes to the treasury and the other
/// half stays in the pool: when the deposit covers the fee, the input vault
/// receives the deposit net of the fee plus the fee's remaining half, and the
/// two halves differ by at most one token.
pub proof fn lemma_swap_fee_split(pool: Swap, is_x: bool, quote: SwapResult)
    requires
        quote.fee <= quote.deposit,
    ensures
        ({
            let ops = pool.swap_plan(is_x, quote);
            let to_treasury = inflow(ops, treasury_in(is_x));
            let kept = quote.fee - to_treasury;
            &&& to_treasury == quote.fee / 2
            &&& inflow(ops, vault_in(is_x)) == (quote.deposit - quote.fee) + kept
            &&& to_treasury <= kept <= to_treasury + 1
        }),
{
    lemma_swap_flows(pool, is_x, quote);
}

/// A locked pool refuses every swap, whatever the curve answers.
pub proof fn lemma_locked_pool_refuses_swaps(pool: Swap, is_x: bool, amount: u64, min: u64, quote: Option<SwapResult>)
    requires
        pool.locked,
    ensures
        pool.curve_request(is_x, amount, min) == Err::<CurveQuery, AmmError>(AmmError::PoolLocked),
        pool.swap_decision(amount, quote) == Err::<SwapResult, AmmError>(AmmError::PoolLocked),
{
}

} // verus!
