# autocomplete_broker

The verified core of a local autocomplete broker: editor clients send the
text around the cursor, the broker validates the request, trims its context,
applies a privacy policy, picks a prompt, asks a completion provider, and
postprocesses what comes back.

## Layout

- `src/` — the library, verified with Verus:
  - `protocol.rs`: request and response types and their semantic validation;
  - `postprocess.rs`: the postprocessing steps and their pipeline;
  - `addons.rs`, `policy.rs`: context windowing, prompt selection, and the
    privacy policy (exclusion globs, remote context limit);
  - `engine.rs`: how a request and a provider outcome become a response;
  - `mock.rs`, `pi.rs`, `redaction.rs`: the mock provider, the `pi`
    subprocess provider's command line, prompts, output parsing and retry
    decisions, and redaction of its diagnostics;
  - `server.rs`: configuration, provider selection, request intake and the
    bookkeeping of requests in flight;
  - `text.rs`, `json.rs`: text and JSON helpers;
  - `globs.rs`, `file_uri.rs`, `debug_text.rs`: the calls into `globset`,
    `url` and `std` formatting, with the contracts the proofs rely on.
- `tests/` — tests of the library on concrete values.
- `app/` — the `autocomplete-broker` program: HTTP endpoints (axum), the
  TOML configuration file, the JSON wire format and schemas, and the
  asynchronous provider calls (tokio), all delegating their decisions to the
  library.
