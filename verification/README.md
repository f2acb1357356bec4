# async_test_support

Helpers for tests of asynchronous I/O and timers.

- `src/mock_writer.rs`: `MockWriter`, a writer whose every write is answered
  by a function the test supplies, for exactly the bytes written.
- `src/timeout.rs`: `with_timeout` guards a future with a one-second timer;
  `resolve`, `resolve_poll`, `settle` and `guard_result` decide what a guarded run reports:
  items and the future's own errors pass through, an elapsed limit or a timer
  failure stops the run with a fixed message.
- `app/lib.rs`: the `AsyncWrite` and futures `Future` impls that let the
  runtimes drive these types, `run_with_timeout`, and `send_signal`.
