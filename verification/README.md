# asynx

Exceptions for async Rust without `panic`: an exception context records a
thrown exception, and the future returned by `catch` outputs it as `Err`.

- `src/` is the verified library: the decisions of the unsync and the sync
  exception contexts as state machines with exact contracts, and the laws
  they keep (`lemma_*` proof functions).
- `app/` is the async front: the `Future` impls of the `Catching` wrappers
  (built with `pin-project-lite`), the never-resolving `throw`, the sharing of
  a context (`RefCell`, `Mutex`, a thread-local for `global`) and the panics
  where the library refuses a step.
- `tests/` runs the state machines through the documented scenarios.

The front uses `std` (for `Mutex` and thread-locals), and the `global` module
is always built: the crate has no `no_std` build and no feature flags.
