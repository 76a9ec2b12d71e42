# nesql

The verified core of the neSQL front-end.

- `src/cmd/constitution.rs` — `nesql constitution`: this build's claim, the
  linked engine's verdict on it, and the report (exit, verdict, detail lines,
  human text). The verdict, detail and text are stated exactly as functions of
  what the engine answers; the claim carries the grammar digest of the
  engine's constitution, the constitution's version, formats, capabilities and
  invariants are the linked engine's tables (nedb-engine 12.15.16), and the
  constitution digest is the engine's digest of that constitution. The
  engine's grammar digest, a hash, is not stated.
- `src/bindings.rs` — what the Node and Python bindings decide before they
  reach the engine: which store to open and which dialect a caller forced.
- `src/text.rs` — decimal numbers, ASCII upper-casing, joining.
- `src/out.rs` — the exit verdict and the report type.
- `app/` — the JSON body of the report and the store-opening edge of the
  bindings. The bindings' command entry points (query, version, status,
  root verify, the Python `Nesql` class and module registration) run the
  `nesql` CLI crate's commands, which this crate does not link, so they are
  not here.
