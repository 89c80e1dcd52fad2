use vstd::prelude::*;

verus! {

/// The token accounts that the pool's instructions move tokens between.
#[derive(Debug, Clone, Copy, PartialEq, Eq, Structural)]
pub enum TokenAccountId {
    /// The user's associated account for mint X.
    UserX,
    /// The user's associated account for mint Y.
    UserY,
    /// The user's associated account for the LP mint.
    UserLp,
    /// The pool's vault for mint X, owned by the config account.
    VaultX,
    /// The pool's vault for mint Y, owned by the config account.
    VaultY,
    /// The protocol treasury's associated account for mint X.
    TreasuryX,
    /// The protocol treasury's associated account for mint Y.
    TreasuryY,
}

/// The mints of the pool.
#[derive(Debug, Clone, Copy, PartialEq, Eq, Structural)]
pub enum MintId {
    X,
    Y,
    Lp,
}

/// Who signs a token-program operation.
#[derive(Debug, Clone, Copy, PartialEq, Eq, Structural)]
pub enum Authority {
    /// The user who sent the instruction.
    Signer,
    /// The pool's config account, signing with its derivation seeds
    /// (see `config_signer_seeds`).
    Config,
}

/// A checked transfer of `amount` tokens of `mint` (with `decimals`) from
/// `from` to `to`, authorised by `authority`.
#[derive(Debug, Clone, Copy, PartialEq, Eq, Structural)]
pub struct TokenTransfer {
    pub from: TokenAccountId,
    pub to: TokenAccountId,
    pub mint: MintId,
    pub authority: Authority,
    pub amount: u64,
    pub decimals: u8,
}

/// A checked mint of `amount` new tokens of `mint` (with `decimals`) into
/// `to`, authorised by `authority`.
#[derive(Debug, Clone, Copy, PartialEq, Eq, Structural)]
pub struct TokenMintTo {
    pub mint: MintId,
    pub to: TokenAccountId,
    pub authority: Authority,
    pub amount: u64,
    pub decimals: u8,
}

/// One token-program operation; an instruction's plan is a sequence of them,
/// carried out in order, the whole instruction failing if any one fails.
#[derive(Debug, Clone, Copy, PartialEq, Eq, Structural)]
pub enum TokenOp {
    Transfer(TokenTransfer),
    MintTo(TokenMintTo),
}

/// The mint whose tokens an account holds.
pub open spec fn account_mint(account: TokenAccountId) -> MintId {
    match account {
        TokenAccountId::UserX | TokenAccountId::VaultX | TokenAccountId::TreasuryX => MintId::X,
        TokenAccountId::UserY | TokenAccountId::VaultY | TokenAccountId::TreasuryY => MintId::Y,
        TokenAccountId::UserLp => MintId::Lp,
    }
}

/// An operation names a mint that both of its accounts hold.
pub open spec fn op_is_routed(op: TokenOp) -> bool {
    match op {
        TokenOp::Transfer(t) => account_mint(t.from) == t.mint && account_mint(t.to) == t.mint,
        TokenOp::MintTo(m) => account_mint(m.to) == m.mint,
    }
}

/// Who may move tokens out of an account: the user for the user's own
/// accounts, the config account for the vaults, and nobody in this program for
/// the treasury's accounts.
pub open spec fn account_owner(account: TokenAccountId) -> Option<Authority> {
    match account {
        TokenAccountId::UserX | TokenAccountId::UserY | TokenAccountId::UserLp => Some(
            Authority::Signer,
        ),
        TokenAccountId::VaultX | TokenAccountId::VaultY => Some(Authority::Config),
        TokenAccountId::TreasuryX | TokenAccountId::TreasuryY => None,
    }
}

/// An operation is signed by the owner of the account it debits; a mint is
/// signed by the config account, the LP mint's authority.
pub open spec fn op_is_authorised(op: TokenOp) -> bool {
    match op {
        TokenOp::Transfer(t) => account_owner(t.from) == Some(t.authority),
        TokenOp::MintTo(m) => m.authority == Authority::Config,
    }
}

/// Every operation of a plan is signed by the right authority.
pub open spec fn plan_is_authorised(ops: Seq<TokenOp>) -> bool {
    forall|i: int| 0 <= i < ops.len() ==> op_is_authorised(#[trigger] ops[i])
}

/// Every operation of a plan is routed within one mint.
pub open spec fn plan_is_routed(ops: Seq<TokenOp>) -> bool {
    forall|i: int| 0 <= i < ops.len() ==> op_is_routed(#[trigger] ops[i])
}

/// Every transfer of a plan carries the decimals of the mint it names:
/// `x_decimals` for mint X and `y_decimals` for mint Y.
pub open spec fn transfers_carry_decimals(ops: Seq<TokenOp>, x_decimals: u8, y_decimals: u8) -> bool {
    forall|i: int|
        0 <= i < ops.len() ==> match #[trigger] ops[i] {
            TokenOp::Transfer(t) => (t.mint == MintId::X ==> t.decimals == x_decimals) && (t.mint
                == MintId::Y ==> t.decimals == y_decimals),
            TokenOp::MintTo(_) => true,
        }
}

/// Every mint of LP tokens in a plan carries the LP mint's decimals.
pub open spec fn lp_mints_carry_decimals(ops: Seq<TokenOp>, lp_decimals: u8) -> bool {
    forall|i: int|
        0 <= i < ops.len() ==> match #[trigger] ops[i] {
            TokenOp::Transfer(_) => true,
            TokenOp::MintTo(m) => m.mint == MintId::Lp ==> m.decimals == lp_decimals,
        }
}

/// Amount that one operation takes out of `account`.
pub open spec fn op_outflow(op: TokenOp, account: TokenAccountId) -> int {
    match op {
        TokenOp::Transfer(t) => if t.from == account { t.amount as int } else { 0 },
        TokenOp::MintTo(_) => 0,
    }
}

/// Amount that one operation puts into `account`.
pub open spec fn op_inflow(op: TokenOp, account: TokenAccountId) -> int {
    match op {
        TokenOp::Transfer(t) => if t.to == account { t.amount as int } else { 0 },
        TokenOp::MintTo(m) => if m.to == account { m.amount as int } else { 0 },
    }
}

/// Amount of new tokens of `mint` that one operation creates.
pub open spec fn op_minted(op: TokenOp, mint: MintId) -> int {
    match op {
        TokenOp::Transfer(_) => 0,
        TokenOp::MintTo(m) => if m.mint == mint { m.amount as int } else { 0 },
    }
}

/// Total amount a plan takes out of `account`.
pub open spec fn outflow(ops: Seq<TokenOp>, account: TokenAccountId) -> int
    decreases ops.len(),
{
    if ops.len() == 0 {
        0
    } else {
        outflow(ops.drop_last(), account) + op_outflow(ops.last(), account)
    }
}

/// Total amount a plan puts into `account`.
pub open spec fn inflow(ops: Seq<TokenOp>, account: TokenAccountId) -> int
    decreases ops.len(),
{
    if ops.len() == 0 {
        0
    } else {
        inflow(ops.drop_last(), account) + op_inflow(ops.last(), account)
    }
}

/// Total amount of new tokens of `mint` a plan creates.
pub open spec fn minted(ops: Seq<TokenOp>, mint: MintId) -> int
    decreases ops.len(),
{
    if ops.len() == 0 {
        0
    } else {
        minted(ops.drop_last(), mint) + op_minted(ops.last(), mint)
    }
}

/// The eight little-endian bytes of `value`, least significant first.
pub open spec fn le_bytes(value: u64) -> Seq<u8> {
    seq![
        #[verifier::truncate] (value as u8),
        #[verifier::truncate] ((value >> 8u64) as u8),
        #[verifier::truncate] ((value >> 16u64) as u8),
        #[verifier::truncate] ((value >> 24u64) as u8),
        #[verifier::truncate] ((value >> 32u64) as u8),
        #[verifier::truncate] ((value >> 40u64) as u8),
        #[verifier::truncate] ((value >> 48u64) as u8),
        #[verifier::truncate] ((value >> 56u64) as u8),
    ]
}

/// The ASCII bytes of the config account's seed prefix, `config`.
pub open spec fn config_tag() -> Seq<u8> {
    seq![0x63u8, 0x6fu8, 0x6eu8, 0x66u8, 0x69u8, 0x67u8]
}

/// The seeds with which the config account signs: its tag, its seed in
/// little-endian bytes, and its bump.
pub open spec fn config_seeds(seed: u64, bump: u8) -> Seq<Seq<u8>> {
    seq![config_tag(), le_bytes(seed), seq![bump]]
}

/// Builds the signer seeds of the config account derived from `seed` and `bump`.
pub fn config_signer_seeds(seed: u64, bump: u8) -> (res: Vec<Vec<u8>>)
    ensures
        res@.map_values(|v: Vec<u8>| v@) == config_seeds(seed, bump),
{
    let tag: Vec<u8> = vec![0x63u8, 0x6fu8, 0x6eu8, 0x66u8, 0x69u8, 0x67u8];
    let bytes: Vec<u8> = vec![
        #[verifier::truncate] (seed as u8),
        #[verifier::truncate] ((seed >> 8u64) as u8),
        #[verifier::truncate] ((seed >> 16u64) as u8),
        #[verifier::truncate] ((seed >> 24u64) as u8),
        #[verifier::truncate] ((seed >> 32u64) as u8),
        #[verifier::truncate] ((seed >> 40u64) as u8),
        #[verifier::truncate] ((seed >> 48u64) as u8),
        #[verifier::truncate] ((seed >> 56u64) as u8),
    ];
    let bump_bytes: Vec<u8> = vec![bump];
    let res: Vec<Vec<u8>> = vec![tag, bytes, bump_bytes];
    assert(tag@ =~= config_tag());
    assert(bytes@ =~= le_bytes(seed));
    assert(bump_bytes@ =~= seq![bump]);
    assert(res@.map_values(|v: Vec<u8>| v@) =~= config_seeds(seed, bump));
    res
}


/// The bytes of `le_bytes(value)` are its base-256 digits, least significant
/// first: they add back up to `value`.
pub proof fn lemma_le_bytes_value(value: u64)
    ensures
        ({
            let b = le_bytes(value);
            &&& b.len() == 8
            &&& value == b[0] + 0x100 * b[1] + 0x1_0000 * b[2] + 0x100_0000 * b[3] + 0x1_0000_0000
                * b[4] + 0x100_0000_0000 * b[5] + 0x1_0000_0000_0000 * b[6] + 0x100_0000_0000_0000
                * b[7]
        }),
{
    let b0 = value as u8;
    let b1 = (value >> 8u64) as u8;
    let b2 = (value >> 16u64) as u8;
    let b3 = (value >> 24u64) as u8;
    let b4 = (value >> 32u64) as u8;
    let b5 = (value >> 40u64) as u8;
    let b6 = (value >> 48u64) as u8;
    let b7 = (value >> 56u64) as u8;
    assert(value == b0 + 0x100 * b1 + 0x1_0000 * b2 + 0x100_0000 * b3 + 0x1_0000_0000 * b4
        + 0x100_0000_0000 * b5 + 0x1_0000_0000_0000 * b6 + 0x100_0000_0000_0000 * b7) by (bit_vector)
        requires
            b0 == value as u8,
            b1 == (value >> 8u64) as u8,
            b2 == (value >> 16u64) as u8,
            b3 == (value >> 24u64) as u8,
            b4 == (value >> 32u64) as u8,
            b5 == (value >> 40u64) as u8,
            b6 == (value >> 48u64) as u8,
            b7 == (value >> 56u64) as u8,
    ;
}

} // verus!
