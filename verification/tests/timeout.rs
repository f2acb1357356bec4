use async_test_support::{
    guard_result, resolve, resolve_poll, settle, with_timeout, TimeoutFailure, TimeoutFault, TIMEOUT_SECS,
};
use std::time::{Duration, Instant};
use tokio::prelude::{future, Async};
use tokio::runtime::current_thread::Runtime;

#[test]
fn deadline_is_one_second() {
    assert_eq!(TIMEOUT_SECS, 1);
    let d = with_timeout(future::ok::<u32, ()>(3));
    assert_eq!(d.limit_secs(), 1);
}

#[test]
fn resolve_passes_the_futures_own_error_through() {
    assert_eq!(resolve(TimeoutFault::Inner("oh no")), Ok("oh no"));
    assert_eq!(resolve(TimeoutFault::Inner(42u8)), Ok(42u8));
}

#[test]
fn resolve_elapsed_is_timed_out() {
    assert_eq!(resolve::<u8>(TimeoutFault::Elapsed), Err(TimeoutFailure::TimedOut));
}

#[test]
fn resolve_timer_is_timer_unavailable() {
    assert_eq!(resolve::<u8>(TimeoutFault::Timer), Err(TimeoutFailure::TimerUnavailable));
}

#[test]
fn failure_messages() {
    assert_eq!(TimeoutFailure::TimedOut.message(), "timed out");
    assert_eq!(TimeoutFailure::TimerUnavailable.message(), "failed to register timer");
}

#[test]
fn settle_tells_the_timer_errors_apart() {
    assert_eq!(settle(tokio_timer::timeout::Error::inner(7u8)), Ok(7u8));
    assert_eq!(settle::<u8>(tokio_timer::timeout::Error::elapsed()), Err(TimeoutFailure::TimedOut));
    assert_eq!(
        settle::<u8>(tokio_timer::timeout::Error::timer(tokio_timer::Error::shutdown())),
        Err(TimeoutFailure::TimerUnavailable)
    );
}

#[test]
fn guarded_future_that_completes_gives_its_item() {
    let mut rt = Runtime::new().unwrap();
    let d = with_timeout(future::ok::<u32, &str>(5));
    assert_eq!(rt.block_on(d.into_timer()).map_err(|e| settle(e)), Ok(5));
}

#[test]
fn guarded_future_that_fails_gives_its_own_error() {
    let mut rt = Runtime::new().unwrap();
    let d = with_timeout(future::err::<u32, &str>("oh no"));
    let res = rt.block_on(d.into_timer()).map_err(|e| settle(e));
    assert_eq!(res, Err(Ok("oh no")));
}

#[test]
fn guarded_future_that_never_completes_times_out_after_the_limit() {
    let mut rt = Runtime::new().unwrap();
    let start = Instant::now();
    let d = with_timeout(future::empty::<u32, &str>());
    let res = rt.block_on(d.into_timer()).map_err(|e| settle(e));
    assert_eq!(res, Err(Err(TimeoutFailure::TimedOut)));
    let waited = start.elapsed();
    assert!(waited >= Duration::from_millis(900));
    assert!(waited < Duration::from_secs(10));
}


#[test]
fn guard_result_leaves_items_untouched() {
    let polled: Result<Async<u32>, tokio_timer::timeout::Error<&str>> = Ok(Async::Ready(9));
    assert_eq!(guard_result(polled), Ok(Async::Ready(9)));
    let polled: Result<Async<u32>, tokio_timer::timeout::Error<&str>> = Ok(Async::NotReady);
    assert_eq!(guard_result(polled), Ok(Async::NotReady));
}

#[test]
fn guard_result_settles_errors() {
    let polled: Result<u32, _> = Err(tokio_timer::timeout::Error::inner("oh no"));
    assert_eq!(guard_result(polled), Err(Ok("oh no")));
    let polled: Result<u32, tokio_timer::timeout::Error<&str>> = Err(tokio_timer::timeout::Error::elapsed());
    assert_eq!(guard_result(polled), Err(Err(TimeoutFailure::TimedOut)));
}

#[test]
fn resolve_poll_adds_nothing_of_its_own() {
    assert_eq!(resolve_poll::<Async<u8>, &str>(Ok(Async::Ready(4))), Ok(Async::Ready(4)));
    assert_eq!(resolve_poll::<Async<u8>, &str>(Ok(Async::NotReady)), Ok(Async::NotReady));
    assert_eq!(resolve_poll::<u8, &str>(Err(TimeoutFault::Inner("oh no"))), Err(Ok("oh no")));
    assert_eq!(resolve_poll::<u8, &str>(Err(TimeoutFault::Elapsed)), Err(Err(TimeoutFailure::TimedOut)));
    assert_eq!(
        resolve_poll::<u8, &str>(Err(TimeoutFault::Timer)),
        Err(Err(TimeoutFailure::TimerUnavailable))
    );
}
