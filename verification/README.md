# cube_native

A verified core for two pieces of Cube's native runtime:

- `src/config.rs` — the configuration read from a Python module: plain values
  stored under camel-case keys (last write wins, refused attributes change
  nothing), and the optional `query_rewrite` / `check_auth` functions.
- `src/properties.rs` — the key/value list behind the configuration, with
  distinct keys, viewed as a map.
- `src/conversion.rs` — the conversion of JavaScript values to Python values.
- `src/python_call.rs` — how a call of a configured Python function is settled.
- `src/scheduler.rs` — the decisions of the cache store's garbage-collection
  scheduler: what each event leads to and which queue results are deleted.
- `src/error.rs` — the library's error type.

`app/` holds the bindings that Verus does not see: the Node.js (neon) and
Python (pyo3) glue, and the tokio loops of the scheduler.
