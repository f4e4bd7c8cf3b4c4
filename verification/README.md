# osai

The OSAI agent core as a Verus-verified library: typed plans and their validation
rules, policy-checked tool authorization, the executor's decisions, auditable
receipts (with secrets redacted), plan application and its summaries, the local
API's request handling, the doctor's checks and the runtime status inference.

- `src/` — the verified library. Every public function carries a contract over
  mathematical models (`Seq`, `Map`, spec functions), and the laws
  the library promises (a denied step never runs, every step is counted once,
  redaction is idempotent, listings are sorted newest first and keep ties in
  order, ...) are public proof functions.
- `tests/` — ordinary Rust tests against the compiled library.
- `app/` — the `osai-agent` command line and the loopback HTTP API: file and
  network I/O, YAML/JSON (de)serialization, and process spawning, around the
  library.
