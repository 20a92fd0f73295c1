# starfund_escrow

The verified core of the StarFund invoice-funding escrow.

- `src/keys.rs` — the `DataKey` storage keys and their constructors, with the
  proof that distinct constructors, or distinct arguments, give distinct
  key values.
- `src/pagination.rs` — the `[start, end)` window arithmetic shared by the
  paginated read views, page extraction, and the laws of a page walk.
- `src/funders.rs` — the unique-funder ceiling (configured cap and the hard
  `MAX_UNIQUE_INVESTORS` ceiling).
- `src/budget.rs` — the release-path budget gate over measured CPU and memory:
  `assert_within_budget` admits only measurements under both ceilings, and
  `check_within_budget` reports which ceiling a measurement broke.
- `src/address.rs` — the declaration of `soroban_sdk::Address`, carried as an
  opaque value.

Tests live in `tests/`.
