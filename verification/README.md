# pumpstake

Prediction markets on Solana whose winning side can graduate into a token
launch, with the market rules proved in Verus.

- `src/` is the verified library. `utils` prices tokens on a constant-product
  pool with a 3 % cap per claim; `payout` shares the losing side's stakes
  among the winners; `instructions` holds one module per instruction, each a
  struct of the account data it reads and writes and a method whose contract
  states the whole effect (which check refuses, what is paid, what changes);
  `pumpstake` holds the entry points; `solana` holds the calls into
  anchor-lang and anchor-spl that the rules make (decoding an address,
  deriving an associated token account) and the `Pubkey` they use.
- `app/` is the Anchor program around it: it reads the clock and the
  accounts, checks the preconditions that the library leaves to its caller,
  calls the library, and performs the transfers, mints and events.
- `tests/` runs the library on concrete markets and pools.
