# mik

The logic of a WASI HTTP runtime and its L7 load balancer, written in Verus:
request routing and the answers built without I/O, path and module-name
sanitization, W3C trace context, timing spans, the steps of loading a
module, circuit breakers, round-robin backend selection, health-check
bookkeeping, AOT cache keys and cleanup order, metrics text, configuration
builders, cluster plans and server bookkeeping. Verus verifies every
function in `src/`, and the contracts state what each computes (only a clock
reading and the shared HTTP client are handed out with nothing to state);
the laws of the library (sanitized paths are plain and stable, breakers open
and close at their thresholds, round robin visits every backend in turn,
trace headers round-trip, span ids never repeat, cleanup accounting adds up
and a finished cleanup leaves only what it failed to remove) are proof
functions beside the code they speak of.

Layout:

- `src/` — the verified library. Calls into outside crates (blake3, flate2,
  percent-encoding, uuid, chrono, sysinfo, num_cpus, reqwest) stand behind
  small trusted wrappers whose contracts say what those crates document.
- `tests/` — tests of the library on concrete values.
- `app/` — what the library leaves to ordinary Rust: reading and writing
  files, serialization, the load balancer's network service, worker
  processes, and Prometheus recording through the `metrics` crate.
