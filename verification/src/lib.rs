//! Helpers for exercising asynchronous I/O and timers in tests: a writer whose
//! replies come from a function supplied by the test, and a one-second
//! deadline around a future together with the rule that decides what a
//! timed-out run reports.

pub mod mock_writer;
pub mod timeout;

pub use mock_writer::MockWriter;
pub use timeout::{
    guard_result, resolve, resolve_poll, settle, with_timeout, Deadline, TimeoutFailure, TimeoutFault, TIMEOUT_SECS,
};
