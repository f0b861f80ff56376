# v8_isolate

The host side of a JavaScript engine's isolates, verified with Verus.

- `src/` keeps what the host knows about an isolate (the embedder's slots and
  data words, handles and lockers, handle data that waits to be freed, how often
  the isolate is entered) and says, as `Command`s, what the engine has to do.
  `src/laws.rs` and `src/history.rs` state what holds across operations.
- `app/` carries the commands out through the engine's C interface and wraps the
  result in the types that an embedder uses: values of any type in slots, lockers
  and handles that are dropped.
- `tests/` runs the library.
