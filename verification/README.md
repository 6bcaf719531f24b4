# banking_bridge

A verified library for the seam between a validator's runtime and a block producer that
lives outside of it. The block producer hands over transactions and bundles through a C
interface and keeps the clock of the chain (proof of history) itself. The library decides

- what is asked of the runtime for a set of transactions or for a bundle,
- what is reported of each transaction: how far it got, the code of its failure, the compute
  units that it is charged, and its tips after the block's share,
- what becomes of a bundle of which one transaction fails,
- what follows a commit, and which index each transaction has in the block,
- what the clock is told when a bank starts production or when it starts over.

## Layout

- `src/` is the library. Every function carries its contract, and laws that relate several
  functions are the public proof functions whose names start with `law_`.
  - `transaction_error`: failures and their codes
  - `processing`: the report on one transaction
  - `request`: what the runtime is asked to do
  - `bank_execution`, `bundle_execution`: running transactions and bundles, as steps from an
    event to the next action
  - `bundle`: the identifier of a bundle and its errors
  - `committer`: what follows a commit
  - `features`: the slots in which features became active
  - `poh_recorder`: the recorder of proof of history
- `app/` is the C interface itself. It calls the runtime, takes pointers apart and converts
  values.
- `tests/` runs the library on concrete values.
