# drakkar

The core of a native LLM inference engine for Apple Silicon, written in Verus:
every verified function in `src/` carries a `requires`/`ensures` contract
that Verus proves, and the library's laws are stated as public proof
functions. The trusted items (the `external_body` wrappers around the `toml`
and `serde_json` parsers and a few `std` calls, and the names given to those
parsers' results) have contracts that Verus believes without proof.

## Layout

- `src/error/` — the closed error-code registry, its category/exit/HTTP
  mappings, remedy templates and their rendering, and the wire fields an error
  is read back from.
- `src/config/` — `config.toml` reading, the flag > `DRAKKAR_*` > file >
  default resolver, `config get`/`config set`, the laws of precedence, and a
  read-back proof for `to_toml`: the entries the library models its text as
  (strings without quotes, backslashes or control characters; a whole-second
  keep-alive) resolve to the configuration that was written. What the `toml`
  crate itself makes of the text is a named result, not proved.
- `src/fit/` — the feasibility planner's integer core: the OS floor, the
  effective budget, the verdict tiers, the remedy ladder, the wired-limit
  proposal, the context search, and the Hugging Face metadata parser.
- `src/engine/` — the KV pool behind its trait seam, a deterministic backend
  double, and the decisions of the engine actor's loop.
- `src/ids.rs`, `src/schema.rs`, `src/memory.rs`, `src/secret.rs`,
  `src/time.rs` — digests and ULIDs with their text forms, schema tags and the
  version gate, memory contracts, redacted secrets, durations.
- `src/cli.rs` — the command surface as data, output mode, color gate, exit
  codes, dispatch, and the configuration path.
- `src/text.rs`, `src/json.rs` — decimal text, string helpers, and the JSON
  shape the metadata parser reads.
- `src/json_schema.rs` — the draft-07 subset validator for the JSON surfaces.
- `app/` — the `drakkar` binary: argument parsing, files, the environment,
  threads, serde wire forms, and the floating-point half of the fit model.
- `tests/` — scenario tests of the library.

The `toml` and `serde_json` parsers are called from the library through small
trusted wrappers whose contracts name their results; what those parsers make
of a text is theirs, and the library's contracts speak of it through the
names.
