# codex_relay

The logic of a relay that shares a pool of Codex credentials among its clients,
verified with Verus.

- `src/` is the verified library. It holds the credential pool, the login by
  device code, the attempts to have a request answered, the URLs and headers of
  the backend, and the order in which the organizations of a chat account are
  tried. Nothing in it does I/O: requests and replies are plain values, and what
  waits for the outside is a session that is told events and answers with
  actions.
- `app/` is ordinary Rust around it: the HTTP client, the endpoints, the actor
  that owns the pool, and the configuration file.
- `tests/` runs the library.

What the library trusts is marked `external_body` and documented where it
stands: reading JSON (`serde_json`), decoding base64 (`base64`), and putting URLs
together (`url`).
