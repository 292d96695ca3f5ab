# slave_pool

A simple thread pool whose number of threads can change at runtime, with
handles that wait for a job's result (blocking, with a timeout, or as a
future).

## Layout

- `src/` is the verified library (Verus):
  - `oneshot.rs`: the flag byte shared by the two sides of a job's result
    channel, every decision either side takes on an observed byte, and the
    atomic operations that produce those observations.
  - `protocol.rs`: the model of that byte (its atomic operations, and runs
    of them in any interleaving) and the laws proved of it. In every
    interleaving: the payload is freed exactly once, and once the sender has
    sent or gone no receiving decision says to wait. In the runs that keep a
    stated discipline: the value is taken at most once and otherwise dropped
    with the payload (a take decided by a receiving operation keeps that
    discipline), and every stored notifier is taken out exactly once (the
    discipline's documentation names interleavings that break it).
  - `pool.rs`: the workers' message queue (over `crossbeam-channel`), the
    plan for a new thread count, the count kept after a failed start and the
    workers' thread settings.
  - `spin.rs`: the spin lock's single attempt and its guard.
  - `panic.rs`: the text of a panic payload.
- `app/` is the runtime around it: threads, the result channel's memory,
  parking and waking, the `Future` impls, the spinning, and the pool itself.
- `tests/` exercises the library.
