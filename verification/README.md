# pheno_bridge

A C-ABI bridge over memory ports, with its decisions verified by Verus.

- `src/` is the verified library: decoding of C string arguments (given as
  bytes), provider and scope names, the last-error slot, and for each entry
  point a check of its arguments and a reply built from the backend's answer,
  each with the status code (`0` success, `1` invalid argument, `2` backend
  error, `3` internal error) and message it gives. `src/laws.rs` states the
  properties that span functions.
- `app/` is the C surface: raw pointers, the process-wide error slot, the
  memory adapters and the Tokio runtime. It hands the library plain values.
- `tests/` exercises the library.
