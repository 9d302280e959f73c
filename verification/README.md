# mac-cpu-monitord

Backend of a macOS CPU monitor: it samples CPU usage, per-core usage,
processes, load and uptime (via `sysinfo`), and on Apple Silicon CPU/GPU
temperature and cluster frequencies (via `macmon`/IOReport), and serves the
snapshots over HTTP and SSE.

- `src/` is the verified library (Verus): the snapshot schema, the rules that
  turn raw readings into a snapshot (model/vendor fallbacks, frequency choice,
  temperature sensors, top processes by CPU usage), the sampling windows and
  the sampler's cadence, and the bodies of the metadata endpoints. Float
  readings are carried as their IEEE-754 bit patterns.
- `app/` is the daemon around it: command-line flags, reading the OS counters,
  the sampling thread, the HTTP server, and JSON copies of the schema.
- `tests/` exercises the library on concrete values.
