# koprs

The operational skeleton of a Kubernetes operator: leader election on a Lease,
liveness and readiness probes, graceful shutdown, per-reconcile timeouts, watch
registration and Event recording.

- `src/` holds the decisions, each with a contract that Verus proves. Nothing in
  it talks to a cluster, a socket or a clock: a function takes what was read or
  measured and says what is to be done next. The `law_*` proof functions state
  what holds of the library as a whole, such as that two replicas never hold a
  standing Lease at the same time, as far as their clocks agree, each keeps to one
  lease duration and nobody deletes the Lease in between.
- `app/` performs what `src/` decides: API requests, sockets, signals, timers and
  metrics, on top of `kube` and `tokio`.
- `tests/` runs the library with the real crates linked.

A few calls into `jiff`, `kube-runtime` and the standard library are trusted. Each
stands behind an item whose comment says what is claimed of it.
