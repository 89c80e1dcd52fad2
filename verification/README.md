# amm_video

The verified core of a constant-product AMM pool program on Solana.

- `src/` is the library, verified with Verus. `deposit.rs` and `swap.rs` model
  what the `deposit` and `swap` instructions read of their accounts as plain
  values and decide each instruction: they either refuse it with an
  `AmmError` or return the sequence of token-program operations (`token.rs`)
  that carry it out. Public proof functions state the laws of these plans:
  proportional deposits, exact token flows, the split of the swap fee between
  the pool and the treasury, routing within one mint and signing by the
  debited account's owner.
- `app/` is the Anchor program around it: account validation, the
  constant-product curve's quote, and the token-program calls that execute a
  plan.
- `tests/` runs the library on concrete pools.
