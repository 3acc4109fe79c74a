# endpoint_control

Verified logic for managing compute endpoints of a local environment.

- `src/` is the library. Contracts are stated over mathematical views of its types and are proved
  by Verus. Calls into other crates are in `src/outside.rs`, with what is taken for granted about
  them.
- `app/` surrounds the library with files, processes and HTTP. Starting and stopping an endpoint
  are state machines in the library (`src/start.rs`, `src/stop.rs`); `app/running.rs` performs the
  action of each state and reports the outcome.
- `tests/` exercises the library.
