# marinade_finance

The core of a liquid-staking program for Solana, written in Verus: users deposit SOL (or
active stake accounts) for mSOL, sell mSOL back through a SOL/mSOL liquidity pool or order a
delayed unstake with a ticket, and permissionless cranks spread the reserve over validators
in proportion to their scores and account for rewards and slashes at the end of each epoch.

## Layout

- `src/` — the verified library. Every instruction's decisions are a function from plain
  values (the state, the raw bytes of the stake and validator lists, balances, clock values)
  to a new state and an outcome that says which transfers, mints and stake-program calls to
  make. Contracts are stated over spec functions; properties that span several calls
  (price kept by stake moves, ticket paid once and in full, score totals kept by the
  validator registry, encode/decode round trips, list removal, what the end-of-epoch updates
  leave in the totals and the price) are public proof functions.
  - `calc`, `fee`, `state`: share/price arithmetic, fees, the protocol state.
  - `list`, `codec`, `stake_system`, `validator_system`: fixed-size record lists in account data.
  - `liq_pool`, `liquidity`, `user`, `delayed_unstake`: the user-facing instructions.
  - `crank`, `update`, `management`, `admin`, `initialize`: maintenance, manager and admin
    instructions.
  - `pda`, `checks`, `schedule`: program-derived addresses, account checks, the epoch
    schedule; the calls into the Solana SDK, SPL Token and bincode stand behind a few
    trusted wrappers there.
- `tests/` — tests of the library on concrete values.
- `app/` — the on-chain program around the library: instruction dispatch, Borsh account
  layouts, sysvars, the events the program logs, and the calls into the system, token and
  stake programs.
