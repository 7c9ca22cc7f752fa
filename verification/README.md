# pinocchio_rent_bug

A Solana program that creates a token-account program address (seeds
`"token_account"` and a bump byte) funded with pinocchio's rent-exempt
minimum, then initializes it through SPL Token's `InitializeAccount3`.
pinocchio computes that minimum as `(128 + data_len) * lamports_per_byte`,
with no exemption threshold, so under the older rent sysvar
(3480 lamports per byte-year, threshold 2.0) the account is funded with half
of what SPL Token requires; under the current one (6960, threshold 1.0) it is
funded in full.

- `src/` is the verified library: the instruction as a chain of steps
  (`start`, `RentRequest`, `CreateAccountCall`, `InitializeAccountCall`), the
  rent computation through pinocchio, the `InitializeAccount3` layout, and
  laws on the funding.
- `app/` is the on-chain entrypoint: it reads the rent sysvar and performs the
  two cross-program invocations the library's steps ask for.
- `tests/` runs the library on concrete instructions.
