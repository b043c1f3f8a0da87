# tego

The core of the tego chat library (the engine behind Ricochet-Refresh),
written in Verus: each function states its behaviour in `requires`/`ensures`
and Verus proves it.

- `src/` — the verified library
  - `ffi/handle.rs`, `ffi/object_map.rs`, `object_map.rs`: tagged handles for
    the objects handed across the C interface, and the maps that own them
  - `ffi/string.rs`, `error.rs`, `file_hash.rs`, `keys.rs`: strings, error
    messages, file hashes and identity key blobs as the C interface passes them
  - `ffi/bootstrap_tag.rs`, `logger.rs`: tor's bootstrap phases, log levels
  - `service_id.rs`, `text.rs`, `order.rs`: onion service ids, text helpers,
    ordered keys
  - `session.rs`: a chat session — users, contact requests, connections,
    queued messages and file transfers, connection retries
  - `command_queue.rs`, `event_loop.rs`: the event loop's schedule of commands
    and its state and decisions
  - `tor_config.rs`: proxy, bridge and firewall settings for tor
- `app/` — the C interface and the threads around the library (logging, the
  event loop talking to tor, the frontend's callbacks)
- `tests/` — tests of the library on concrete values
