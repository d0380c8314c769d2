# credence_bond

The rules of the Credence identity bond, as a verified state machine.

An identity locks up a stake, an administrator may slash or liquidate it, attesters record
weighted attestations on subjects, and the contract keeps fees, pull-payment claims and an
emergency drain.

- `src/` is the library. `CredenceBond` holds the contract's ledger entries as plain values; each
  entry point maps them, a `Call` and its arguments to new entries and a list of `Effect`s, or to a
  `Revert` that changes nothing. `BondBook` keeps one bond for each identity. Contracts are stated
  over `State` and `BookState`; `src/laws/` proves what holds across entry points.
- `app/` runs the library on a Soroban ledger: it loads and stores entries, collects
  authorizations and carries out effects. The rules of other subsystems come in through `Rules`.
- `tests/` exercises the library.

Guarded operations come in two parts: the part named `_begin` commits the new entries with the
lock held, the host carries out the effects, and the lock is released after that.
