# stellarlend

The decision logic of the StellarLend lending protocol (a set of Soroban
contracts), written in Verus: every function in `src/` carries a contract that
Verus proves, and the laws the protocol promises stand there as proof
functions.

## Layout

- `src/` — the verified library. Contract state is held in plain values
  (`Table` in `src/table.rs` models keyed contract storage) and each entry
  point is a function from state and inputs to new state and result. Among
  the modules: oracles and TWAP (`oracle`, `oracle_math`, `oracle_hub`),
  flash loans (`flash_loan`), interest and rates (`interest`, `interest_rate`,
  `lending_interest`), liquidation and risk (`liquidation`, `risk`,
  `risk_dashboard`, `margin`, `liquidation_strategy`), delegated execution
  (`meta`, `deadline`, `signature`), the vault, the multisig wallet, the
  credit oracle, the name service, referrals, migrations, the parameter
  store and the pool factory. `fixed_point` calls the host's 256-bit
  integers through three trusted wrappers whose contracts state what the
  host computes.
- `app/` — the unverified shell: storage reads and writes, token transfers,
  cross-contract calls and events. Where an operation alternates outside work
  with decisions (flash loans, delegated batches, swaps, migrations), the
  library names the next action and the shell performs it.
- `tests/` — tests on concrete values, for each module and each law.
