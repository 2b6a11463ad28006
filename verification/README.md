# vynkor

The control plane of the vynkor kernel: which plugins run, what happens when one exits or
goes silent, and what the REST routes answer about them.

- `src/` is the library, verified with Verus.
  - `plugins/supervisor/spawn.rs`: admission, launch plan and registration of an instance
  - `plugins/supervisor/monitor.rs`: exits, restarts and retirement
  - `plugins/supervisor/watchdog.rs`: pings and kills
  - `plugins/supervisor/laws.rs`: what holds across these operations
  - `plugins/config.rs`, `plugins/logs.rs`, `plugins/errors.rs`: configuration, bounded logs, errors
  - `api/routes.rs`, `api/display.rs`, `api/laws.rs`: the answers of the REST routes
  - `api/status.rs`: HTTP status numbers, from axum
  - `idmap.rs`, `text.rs`, `proto.rs`: identifier map, text helpers, wire values
- `app/` runs it: axum handlers, plugin processes, signals and metrics. The parts of the kernel
  that live elsewhere (registry, event bus, sandbox runner) come in through two traits.
- `tests/` runs the library on concrete values.

An instance of a plugin is known by its epoch. Exits, stops and log lines carry the epoch of
their instance, so that none of them is ever taken for one of another instance. A request for
a restart outlasts the exits of older instances: it waits for the registered one to exit. A
spawn that comes up after another instance has taken its place is cleared away.
