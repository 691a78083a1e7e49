# lana_core

The rules at the centre of a lending platform's core banking modules,
written in Verus and proved against their contracts.

- `src/` is the verified library. Each module states what its functions
  return over spec functions and views; the modules whose names end in
  `_laws` hold proof functions for properties that span several calls (the
  order of account codes, the categories of the accounting configuration,
  what the repayment plan keeps when events are read again).
- `tests/` runs the library on concrete values.
- `app/` holds what cannot be verified: serialisable copies of the
  library's records, conversions from calendar and decimal types, error
  types that display, and the loops that feed events to the library and
  carry out what it decides.

Calls into `uuid`, `chrono` and the standard library that the rules need go
through a few small trusted functions in `src/ids.rs`, `src/time.rs` and
`src/text.rs`, each with a doc comment that says what is assumed of it.
