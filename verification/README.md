# openaircast_backend

The device backend of a multi-room AirPlay sender: which receivers are wanted,
how they are discovered, connected, retried, and rejoined, what is captured and
bridged to them, and what of it survives a restart.

- `src/` is the library. It takes every decision and performs no I/O. Clock
  readings, queue answers, and write results come in as plain values; what has
  to be done goes out as ordered lists of effects. Each operation states exactly
  what it does to the model of the state, and the `law_*` functions state what
  holds across operations. Verus proves all of it.
- `tests/` runs the library on concrete values.
- `app/` is the runtime around it: threads, channels, clocks, files, floating
  point audio, and the Windows adapters.

Where to start reading: `actor_model.rs` holds the controller's state as a
mathematical value with one function per transition; `controller*.rs` implement
them. `batch_model.rs` and `batch_driver.rs` do the same for commands.
`discovery.rs`, `capture.rs`, `bridge.rs`, and `network.rs` are step machines of
the supervisors, and `persistence.rs` decides what is loaded and written.
`controller_laws.rs`, `restart_laws.rs`, and `command_laws.rs` state what the
controller keeps, when it restarts, and what commands promise; `session_laws.rs`
states which receivers a session lists as failed;
`discovery_laws.rs` and `capture_laws.rs` state what holds of every run of those
supervisors.
