# voltr_amm

Quotes and instructions for swapping between the asset of a Voltr vault on Solana and the vault's
LP token. A deposit issues LP tokens, a redemption gives them back for asset.

`src/` is the library, verified with Verus:

- `key`, `constants`, `errors`, `instruction`: addresses, program ids and seeds, errors, account
  metas and instructions.
- `address`: program-derived addresses of a vault.
- `encoding`: discriminators and instruction data.
- `token`, `accounts`: mints and token accounts of the two token programs, and the accounts that
  an update reads.
- `state`: the vault as swapping sees it, and the figures and formulas of the vault program by
  name.
- `quote`: the direction of a swap and its quote.
- `swap`: the accounts and instructions of a deposit and of a withdrawal.
- `amm`: `VoltrAmm`, its update from accounts, and the accounts of a swap.
- `laws`: what holds of the library as a whole.

The bytes of a vault account, the figures of a vault and the arithmetic of the formulas belong to
the vault program. The caller hands in a function that reads vault accounts, one that reads a
`Figure` of a vault and one that evaluates a `Formula` on numbers; `update` and `quote` are
specified for all such functions.

Trusted are the calls of `solana_sdk` (program addresses, SHA-256), `spl_token` and
`spl_token_2022` (reading accounts) and `rust_decimal`; each stands behind one wrapper with its
contract.

`app/` puts the library behind the AMM interface of the Jupiter router.
