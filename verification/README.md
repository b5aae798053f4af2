# bhtune-server

The HTTP server of bhtune: a JSON API for relay auto-tuning runs, their history and
configuration, an optional restricted public Demo surface, a live Server-Sent Events stream
per run, and the embedded single-page web UI.

## Layout

- `src/` is the verified library, written in Verus. It holds the server's decisions:
  - `error`: every way a request fails and the status, body and `Retry-After` it is
    answered with;
  - `security`: origin and host parsing, the cross-site request rule for each mode, and the
    response headers every answer carries;
  - `state`: the public Demo's accepted-start windows (per visitor token and per network)
    and the quota they enforce;
  - `active_run`: the registry of the tune runs in flight and the exclusive operations that
    keep them from overlapping;
  - `service`: the background-service commands and the service manager's lifecycle;
  - `spa`: which embedded asset answers a browser path, and how it is cached;
  - `routes/`: the request-level rules of each API resource, the Demo admission and start
    state machines, Demo sessions and client addresses, and the run event stream's state
    machine;
  - `text`: the string and number formatting the messages are built from.
  Each module states its functions' contracts over mathematical models and proves the laws
  that relate them (`law_*` proof functions).
- `tests/` runs the library on concrete values.
- `app/` is the executable around the library: command-line parsing, the axum router and
  handlers, storage, the tune engine, timers and sockets. It hands the library plain values
  and acts on the decisions it returns.

Verify with Verus on `src/lib.rs`; the tests run with `cargo test`.
