use vstd::prelude::*;
use tokio_timer::Timeout;

verus! {

#[verifier::external_type_specification]
#[verifier::external_body]
#[verifier::reject_recursive_types(T)]
pub struct ExTimeout<T>(tokio_timer::Timeout<T>);

#[verifier::external_type_specification]
#[verifier::external_body]
#[verifier::reject_recursive_types(T)]
pub struct ExTimeoutError<T>(tokio_timer::timeout::Error<T>);

/// How long a guarded future may run, in seconds.
pub const TIMEOUT_SECS: u64 = 1;

/// A future guarded by a timer, with the limit, in seconds, that the timer
/// was started with.
#[verifier::reject_recursive_types(F)]
pub struct Deadline<F> {
    timer: Timeout<F>,
    limit_secs: u64,
}

impl<F> Deadline<F> {
    /// The limit, in seconds, that the timer was started with.
    pub closed spec fn limit(&self) -> u64 {
        self.limit_secs
    }

    /// The guarded future.
    pub closed spec fn guarded(&self) -> Timeout<F> {
        self.timer
    }

    pub fn limit_secs(&self) -> (s: u64)
        ensures
            s == self.limit(),
    {
        self.limit_secs
    }

    /// Gives up the guarded future; polling it polls the future and the
    /// timer.
    pub fn into_timer(self) -> (t: Timeout<F>)
        ensures
            t == self.guarded(),
    {
        self.timer
    }
}

/// `tokio_timer::Timeout::new` on `future` with a limit of `secs` seconds
/// (`Duration::from_secs`), kept together with that limit. `Timeout::new` adds
/// the limit to the current `Instant`, which panics where the sum cannot be
/// represented; the bound on `secs` keeps clear of that. The timer itself is
/// opaque here: what is stated is the limit it was started with.
#[verifier::external_body]
fn start_timer<F>(future: F, secs: u64) -> (d: Deadline<F>)
    requires
        secs <= 4_294_967_295,
    ensures
        d.limit() == secs,
{
    Deadline { timer: Timeout::new(future, std::time::Duration::from_secs(secs)), limit_secs: secs }
}

/// Guards `future` with a timer of `TIMEOUT_SECS` seconds.
pub fn with_timeout<F>(future: F) -> (d: Deadline<F>)
    ensures
        d.limit() == TIMEOUT_SECS,
{
    start_timer(future, TIMEOUT_SECS)
}

/// Why a guarded future failed.
pub enum TimeoutFault<E> {
    /// The future itself completed with this error.
    Inner(E),
    /// The limit passed before the future completed.
    Elapsed,
    /// The timer could not be registered.
    Timer,
}

/// A failure of the guard itself, as opposed to one of the guarded future.
#[derive(PartialEq, Eq, Structural, Debug, Clone, Copy)]
pub enum TimeoutFailure {
    TimerUnavailable,
    TimedOut,
}

/// The message that a run which meets `failure` stops with.
pub open spec fn failure_message(failure: TimeoutFailure) -> Seq<char> {
    match failure {
        TimeoutFailure::TimerUnavailable => "failed to register timer"@,
        TimeoutFailure::TimedOut => "timed out"@,
    }
}

impl TimeoutFailure {
    /// The message that a run which meets this failure stops with.
    pub fn message(&self) -> (m: &'static str)
        ensures
            m@ == failure_message(*self),
    {
        match self {
            TimeoutFailure::TimerUnavailable => "failed to register timer",
            TimeoutFailure::TimedOut => "timed out",
        }
    }
}

/// What a guarded run reports for a fault: the future's own error passes
/// through; a timer failure or an elapsed limit is a failure of the guard.
pub open spec fn outcome<E>(fault: TimeoutFault<E>) -> Result<E, TimeoutFailure> {
    match fault {
        TimeoutFault::Inner(e) => Ok(e),
        TimeoutFault::Elapsed => Err(TimeoutFailure::TimedOut),
        TimeoutFault::Timer => Err(TimeoutFailure::TimerUnavailable),
    }
}

/// A fault of the guarded future itself is never taken for a failure of the
/// guard: its error comes back as it was.
pub proof fn own_errors_pass_through<E>(e: E)
    ensures
        outcome(TimeoutFault::Inner(e)) == Ok::<E, TimeoutFailure>(e),
{
}

/// A run is stopped exactly when the guard itself failed, and the two ways
/// the guard can fail stop it with different messages.
pub proof fn guard_failures_stop_with_distinct_messages<E>(fault: TimeoutFault<E>, other: TimeoutFault<E>)
    ensures
        outcome(fault) is Err <==> !(fault is Inner),
        outcome(fault) is Err && outcome(other) is Err && failure_message(outcome(fault)->Err_0)
            == failure_message(outcome(other)->Err_0) ==> outcome(fault) == outcome(other),
{
    reveal_strlit("failed to register timer");
    reveal_strlit("timed out");
    if outcome(fault) is Err && outcome(other) is Err && outcome(fault) != outcome(other) {
        assert(failure_message(outcome(fault)->Err_0).len() != failure_message(outcome(other)->Err_0).len());
    }
}

/// Each fault stops a run with its own message, whatever the future's error
/// type: "timed out" exactly when the limit passed, "failed to register
/// timer" exactly when the timer could not be registered, and the future's
/// own error never stops it but comes back as it was.
pub proof fn each_fault_stops_with_its_own_message<E>(fault: TimeoutFault<E>)
    ensures
        outcome(fault) is Ok <==> fault is Inner,
        fault is Inner ==> outcome(fault) == Ok::<E, TimeoutFailure>(fault->Inner_0),
        outcome(fault) is Err ==> (failure_message(outcome(fault)->Err_0) == "timed out"@
            <==> fault is Elapsed),
        outcome(fault) is Err ==> (failure_message(outcome(fault)->Err_0)
            == "failed to register timer"@ <==> fault is Timer),
{
    reveal_strlit("failed to register timer");
    reveal_strlit("timed out");
    assert("failed to register timer"@.len() != "timed out"@.len());
}

/// What a guarded run reports for `fault`; see `outcome`.
pub fn resolve<E>(fault: TimeoutFault<E>) -> (r: Result<E, TimeoutFailure>)
    ensures
        r == outcome(fault),
        fault is Inner ==> r == Ok::<E, TimeoutFailure>(fault->Inner_0),
        fault is Elapsed ==> r == Err::<E, TimeoutFailure>(TimeoutFailure::TimedOut),
        fault is Timer ==> r == Err::<E, TimeoutFailure>(TimeoutFailure::TimerUnavailable),
{
    match fault {
        TimeoutFault::Inner(e) => Ok(e),
        TimeoutFault::Elapsed => Err(TimeoutFailure::TimedOut),
        TimeoutFault::Timer => Err(TimeoutFailure::TimerUnavailable),
    }
}

/// Tells apart the three kinds of `tokio_timer::timeout::Error` through its
/// `is_elapsed` and `into_inner` methods: `into_inner` gives the future's own
/// error, and an error that holds none is either an elapsed limit or a timer
/// failure. Nothing is stated of which kind comes back: the error is opaque
/// here.
#[verifier::external_body]
fn fault_of<E>(err: tokio_timer::timeout::Error<E>) -> TimeoutFault<E> {
    let elapsed = err.is_elapsed();
    match err.into_inner() {
        Some(e) => TimeoutFault::Inner(e),
        None if elapsed => TimeoutFault::Elapsed,
        None => TimeoutFault::Timer,
    }
}

/// What a guarded run reports for the error that its timer gave: the fault
/// that `tokio_timer` recorded, resolved as `resolve` does. Which fault that
/// is, the opaque error does not show here, so no more is stated.
pub fn settle<E>(err: tokio_timer::timeout::Error<E>) -> Result<E, TimeoutFailure> {
    resolve(fault_of(err))
}

/// What a guarded run reports for one result of polling the guarded future,
/// once its error, if any, is told apart: an item passes through untouched,
/// and a fault is resolved.
pub open spec fn poll_outcome<T, E>(polled: Result<T, TimeoutFault<E>>) -> Result<
    T,
    Result<E, TimeoutFailure>,
> {
    match polled {
        Ok(item) => Ok(item),
        Err(fault) => Err(outcome(fault)),
    }
}

/// The guard adds no item and no error of its own: the run reports an item
/// exactly when the future gave that item, and an error of the future exactly
/// when the future failed with that error; anything else stops the run.
pub proof fn guard_adds_nothing_of_its_own<T, E>(polled: Result<T, TimeoutFault<E>>, item: T, e: E)
    ensures
        poll_outcome(polled) == Ok::<T, Result<E, TimeoutFailure>>(item) <==> polled == Ok::<
            T,
            TimeoutFault<E>,
        >(item),
        poll_outcome(polled) == Err::<T, Result<E, TimeoutFailure>>(Ok(e)) <==> polled == Err::<
            T,
            TimeoutFault<E>,
        >(TimeoutFault::Inner(e)),
        poll_outcome(polled) is Err && poll_outcome(polled)->Err_0 is Err ==> polled is Err
            && !(polled->Err_0 is Inner),
{
}

/// What a guarded run reports for one result of polling, as `poll_outcome`.
pub fn resolve_poll<T, E>(polled: Result<T, TimeoutFault<E>>) -> (r: Result<
    T,
    Result<E, TimeoutFailure>,
>)
    ensures
        r == poll_outcome(polled),
        polled is Ok ==> r == Ok::<T, Result<E, TimeoutFailure>>(polled->Ok_0),
        polled is Err && polled->Err_0 is Inner ==> r == Err::<T, Result<E, TimeoutFailure>>(
            Ok(polled->Err_0->Inner_0),
        ),
        polled is Err && polled->Err_0 is Elapsed ==> r == Err::<T, Result<E, TimeoutFailure>>(
            Err(TimeoutFailure::TimedOut),
        ),
        polled is Err && polled->Err_0 is Timer ==> r == Err::<T, Result<E, TimeoutFailure>>(
            Err(TimeoutFailure::TimerUnavailable),
        ),
{
    match polled {
        Ok(item) => Ok(item),
        Err(fault) => Err(resolve(fault)),
    }
}

/// What a guarded run reports for one result of its timer: the error, if
/// any, is told apart by `tokio_timer`, and the result is then resolved as
/// `resolve_poll` does. An item passes through untouched; which fault an
/// error holds, the opaque error does not show here.
pub fn guard_result<T, E>(polled: Result<T, tokio_timer::timeout::Error<E>>) -> (r: Result<
    T,
    Result<E, TimeoutFailure>,
>)
    ensures
        polled is Ok <==> r is Ok,
        polled is Ok ==> r->Ok_0 == polled->Ok_0,
{
    let told_apart = match polled {
        Ok(item) => Ok(item),
        Err(err) => Err(fault_of(err)),
    };
    resolve_poll(told_apart)
}

} // verus!
