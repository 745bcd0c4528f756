//! Limits on guest execution: cancellation, time budgets and garbage collection.

use std::sync::atomic::{AtomicBool, Ordering};
use std::sync::Arc;
use std::time::{Duration, Instant};
use vstd::prelude::*;

use crate::errors::Error;

verus! {

/// How many nanoseconds a second has.
pub const NANOS_PER_SEC: u128 = 1_000_000_000;

/// One more than the number of nanoseconds that a `std::time::Duration` can hold.
pub const DURATION_LIMIT: u128 = 18_446_744_073_709_551_616_000_000_000;

/// One more than the largest reading of a deadline.
pub const DEADLINE_MODULUS: u128 = 18_446_744_073_709_551_616;

/// A synchronous guest-execution cancellation signal.
pub trait CancelSignal: Send + Sync + 'static {
    /// Whether a reading of the signal may give a value. Readings depend on time, so that one signal
    /// may give both values. An implementation that says nothing else may give either.
    open spec fn may_read(&self, cancelled: bool) -> bool {
        true
    }

    /// Returns whether cancellation was requested.
    fn is_cancelled(&self) -> (r: bool)
        ensures
            self.may_read(r),
    ;
}

/// A shared guest-execution cancellation signal. Copies share one flag, which any thread may set at
/// any time, so that nothing is claimed of a reading but that it is one of the flag.
#[derive(Clone)]
pub struct Cancellation(Arc<AtomicBool>);

impl Cancellation {
    /// Whether the flag is one that was created unset.
    pub closed spec fn starts_unset(&self) -> bool {
        call_ensures(AtomicBool::new, (false,), *self.0)
    }

    /// Creates an uncancelled [`Cancellation`](crate::execution::Cancellation).
    pub fn new() -> (r: Self)
        ensures
            r.starts_unset(),
    {
        Cancellation(Arc::new(AtomicBool::new(false)))
    }

    /// Whether setting the flag may have been done.
    pub closed spec fn may_set(&self) -> bool {
        call_ensures(AtomicBool::store, (&*self.0, true, Ordering::Relaxed), ())
    }

    /// Requests cancellation, which sets the flag.
    pub fn cancel(&self)
        ensures
            self.may_set(),
    {
        self.0.store(true, Ordering::Relaxed);
    }

    /// Returns whether cancellation was requested.
    pub fn is_cancelled(&self) -> (r: bool)
        ensures
            self.may_read(r),
    {
        self.0.load(Ordering::Relaxed)
    }
}

impl Default for Cancellation {
    fn default() -> (r: Self)
        ensures
            r.starts_unset(),
    {
        Cancellation::new()
    }
}

impl CancelSignal for Cancellation {
    /// Whether reading the flag may give a value.
    closed spec fn may_read(&self, cancelled: bool) -> bool {
        call_ensures(AtomicBool::load, (&*self.0, Ordering::Relaxed), cancelled)
    }

    fn is_cancelled(&self) -> (r: bool) {
        self.0.load(Ordering::Relaxed)
    }
}

/// `tokio_util::sync::CancellationToken::is_cancelled`: whether some holder of the token has
/// cancelled it by now. It depends on time; nothing is claimed of it.
#[verifier::external_body]
fn token_is_cancelled(token: &tokio_util::sync::CancellationToken) -> bool {
    token.is_cancelled()
}

impl CancelSignal for tokio_util::sync::CancellationToken {
    /// Whether asking the token may give a value.
    closed spec fn may_read(&self, cancelled: bool) -> bool {
        call_ensures(token_is_cancelled, (self,), cancelled)
    }

    fn is_cancelled(&self) -> (r: bool) {
        token_is_cancelled(self)
    }
}

/// `std::time::Instant::now`: the present. Nothing is claimed of it.
#[verifier::external_body]
fn present() -> Instant {
    Instant::now()
}

/// `std::time::Instant::elapsed`: the time since an instant. Nothing is claimed of it.
#[verifier::external_body]
fn time_since(start: &Instant) -> Duration {
    start.elapsed()
}

/// The whole seconds of a duration.
pub uninterp spec fn seconds_of(duration: Duration) -> u64;

/// The fraction of a second of a duration, in nanoseconds.
pub uninterp spec fn fraction_of(duration: Duration) -> u32;

/// The nanoseconds of a duration.
pub open spec fn nanos_of(duration: Duration) -> nat {
    (seconds_of(duration) as nat) * (NANOS_PER_SEC as nat) + (fraction_of(duration) as nat)
}

/// `std::time::Duration::as_secs`: the whole seconds of a duration.
#[verifier::external_body]
fn whole_seconds(duration: &Duration) -> (r: u64)
    ensures
        r == seconds_of(*duration),
{
    duration.as_secs()
}

/// `std::time::Duration::subsec_nanos`: the fraction of a duration in nanoseconds, which is less
/// than a second.
#[verifier::external_body]
fn fraction_nanos(duration: &Duration) -> (r: u32)
    ensures
        r == fraction_of(*duration),
        r < 1_000_000_000,
{
    duration.subsec_nanos()
}

/// Counts the nanoseconds of a duration.
pub fn nanos(duration: &Duration) -> (r: u128)
    ensures
        r == nanos_of(*duration),
        r < DURATION_LIMIT,
{
    let seconds: u64 = whole_seconds(duration);
    let fraction: u32 = fraction_nanos(duration);
    (seconds as u128) * NANOS_PER_SEC + (fraction as u128)
}

/// The time by which a guest execution must have ended. Times are nanoseconds since the deadline
/// was created, as far as they fit in 64 bits. Zero stands for no deadline.
pub struct Deadline {
    base: Instant,
    at: u64,
}

/// What a deadline stands for.
pub struct DeadlineView {
    /// The instant from which times are counted.
    pub started: Instant,
    /// The time at which the deadline is set, or zero.
    pub at: u64,
}

impl View for Deadline {
    type V = DeadlineView;

    closed spec fn view(&self) -> DeadlineView {
        DeadlineView { started: self.base, at: self.at }
    }
}

/// Whether an instant may be the present.
pub closed spec fn may_be_now(instant: Instant) -> bool {
    call_ensures(present, (), instant)
}

/// Whether a reading of the clock may give a number of nanoseconds since an instant.
pub closed spec fn may_elapse(started: Instant, elapsed: u128) -> bool {
    exists|since: Duration|
        call_ensures(time_since, (&started,), since) && elapsed == #[trigger] nanos_of(since)
}

/// The time at which a budget that starts now ends.
pub open spec fn ends_at(elapsed: u128, budget: u128) -> u64 {
    ((elapsed + budget) % (DEADLINE_MODULUS as int)) as u64
}

/// Whether an error is that of a budget that no duration can add to a time.
pub open spec fn is_overflow(error: Error) -> bool {
    error is Unexpected && error.details() == Some(
        ("overflow when adding durations"@, None::<Seq<char>>),
    )
}

/// Whether a deadline was set to the end of a budget that starts at a time. A budget that no
/// duration can add to the time is an error and leaves the deadline as it was.
pub open spec fn armed(
    before: u64,
    elapsed: u128,
    budget: u128,
    after: u64,
    result: Result<(), Error>,
) -> bool {
    if elapsed + budget < DURATION_LIMIT {
        result is Ok && after == ends_at(elapsed, budget)
    } else {
        (result matches Err(error) && is_overflow(error)) && after == before
    }
}

/// Whether a deadline is set and has come.
pub open spec fn has_come(at: u64, elapsed: u128) -> bool {
    at != 0 && elapsed % DEADLINE_MODULUS >= at
}

impl Default for Deadline {
    fn default() -> (r: Self)
        ensures
            may_be_now(r@.started),
            r@.at == 0,
    {
        Deadline { base: present(), at: 0 }
    }
}

impl Deadline {
    /// Returns the nanoseconds since the deadline was created.
    pub fn elapsed(&self) -> (r: u128)
        ensures
            may_elapse(self@.started, r),
            r < DURATION_LIMIT,
    {
        nanos(&time_since(&self.base))
    }

    /// Sets the deadline to the end of a budget that starts at a given time. A budget that no
    /// duration can add to the time leaves the deadline as it is.
    pub fn arm_at(&mut self, elapsed: u128, budget: u128) -> (r: Result<(), Error>)
        ensures
            armed(old(self)@.at, elapsed, budget, final(self)@.at, r),
            final(self)@.started == old(self)@.started,
    {
        if budget >= DURATION_LIMIT || elapsed >= DURATION_LIMIT - budget {
            return Err(Error::unexpected("overflow when adding durations"));
        }
        let end: u128 = (elapsed + budget) % DEADLINE_MODULUS;
        self.at = end as u64;
        Ok(())
    }

    /// Sets the deadline to the end of a budget that starts now.
    pub fn arm(&mut self, budget: u128) -> (r: Result<(), Error>)
        ensures
            exists|elapsed: u128| #[trigger]
                may_elapse(old(self)@.started, elapsed) && elapsed < DURATION_LIMIT && armed(
                    old(self)@.at,
                    elapsed,
                    budget,
                    final(self)@.at,
                    r,
                ),
            final(self)@.started == old(self)@.started,
    {
        let elapsed: u128 = self.elapsed();
        self.arm_at(elapsed, budget)
    }

    /// Removes the deadline.
    pub fn disarm(&mut self)
        ensures
            final(self)@ == (DeadlineView { at: 0, ..old(self)@ }),
    {
        self.at = 0;
    }

    /// Returns whether the deadline has come at a given time.
    pub fn expired_at(&self, elapsed: u128) -> (r: bool)
        ensures
            r == has_come(self@.at, elapsed),
    {
        self.at != 0 && elapsed % DEADLINE_MODULUS >= (self.at as u128)
    }

    /// Returns whether the deadline has come.
    pub fn expired(&self) -> (r: bool)
        ensures
            exists|elapsed: u128| #[trigger]
                may_elapse(self@.started, elapsed) && elapsed < DURATION_LIMIT && r == has_come(
                    self@.at,
                    elapsed,
                ),
    {
        let elapsed: u128 = self.elapsed();
        self.expired_at(elapsed)
    }
}

/// The limits on the guest executions of a runtime.
pub struct ExecutionPolicy {
    timeout: Option<u128>,
    cancellation: Option<Arc<dyn CancelSignal>>,
    deadline: Deadline,
    gc_after: Option<u32>,
    since_gc: u32,
}

/// What the limits stand for.
pub struct PolicyView {
    /// The time budget of an execution in nanoseconds.
    pub timeout: Option<u128>,
    /// The cancellation signal.
    pub signal: Option<Arc<dyn CancelSignal>>,
    /// The instant from which times are counted.
    pub started: Instant,
    /// The time at which the current execution must end, or zero.
    pub deadline: u64,
    /// The number of executions between garbage collections.
    pub gc_after: Option<u32>,
    /// The number of executions since the last garbage collection.
    pub since_gc: u32,
}

impl View for ExecutionPolicy {
    type V = PolicyView;

    closed spec fn view(&self) -> PolicyView {
        PolicyView {
            timeout: self.timeout,
            signal: self.cancellation,
            started: self.deadline@.started,
            deadline: self.deadline@.at,
            gc_after: self.gc_after,
            since_gc: self.since_gc,
        }
    }
}

/// The result of an execution, given what interrupted it: an interrupt is reported as the
/// cancellation or the timeout behind it, and anything else as it is.
pub open spec fn classified<R>(
    result: Result<R, Error>,
    cancelled: bool,
    expired: bool,
) -> Result<R, Error> {
    match result {
        Err(Error::Interrupted) => if cancelled {
            Err(Error::Cancelled)
        } else if expired {
            Err(Error::Timeout)
        } else {
            result
        },
        _ => result,
    }
}

impl PolicyView {
    /// Whether asking for cancellation may give an answer: what a reading of the signal may give,
    /// and without a signal that nothing asks for it.
    pub open spec fn may_be_cancelled(self, cancelled: bool) -> bool {
        match self.signal {
            Some(signal) => signal.may_read(cancelled),
            None => !cancelled,
        }
    }

    /// Whether the start of an execution at a time ended as it must: a cancelled execution does not
    /// start, and otherwise the deadline is set to the end of the budget, where there is one.
    pub open spec fn begins(
        self,
        cancelled: bool,
        elapsed: u128,
        after: Self,
        result: Result<(), Error>,
    ) -> bool {
        if cancelled {
            result == Err::<(), Error>(Error::Cancelled) && after == self
        } else {
            match self.timeout {
                Some(budget) => armed(self.deadline, elapsed, budget, after.deadline, result)
                    && after == (PolicyView { deadline: after.deadline, ..self }),
                None => result is Ok && after == self,
            }
        }
    }

    /// Whether the executions that were counted call for a garbage collection.
    pub open spec fn gc_is_due(self) -> bool {
        match self.gc_after {
            Some(limit) => self.since_gc + 1 >= limit,
            None => false,
        }
    }

    /// The limits behind one more execution.
    pub open spec fn counted(self) -> Self {
        match self.gc_after {
            Some(limit) => PolicyView {
                since_gc: if self.gc_is_due() {
                    0
                } else {
                    (self.since_gc + 1) as u32
                },
                ..self
            },
            None => self,
        }
    }

    /// The limits behind a number of executions.
    pub open spec fn counted_times(self, times: nat) -> Self
        decreases times,
    {
        if times == 0 {
            self
        } else {
            self.counted_times((times - 1) as nat).counted()
        }
    }
}

impl Default for ExecutionPolicy {
    /// Creates limits that never stop an execution and never ask for a garbage collection.
    fn default() -> (r: Self)
        ensures
            r@ == (PolicyView {
                timeout: None,
                signal: None,
                started: r@.started,
                deadline: 0,
                gc_after: None,
                since_gc: 0,
            }),
            may_be_now(r@.started),
    {
        ExecutionPolicy::new(None, None, None)
    }
}

impl ExecutionPolicy {
    /// Creates limits without a current execution.
    pub fn new(
        timeout: Option<Duration>,
        cancellation: Option<Arc<dyn CancelSignal>>,
        gc_after: Option<u32>,
    ) -> (r: Self)
        ensures
            match timeout {
                Some(budget) => r@.timeout matches Some(nanos) && nanos == nanos_of(budget)
                    && nanos < DURATION_LIMIT,
                None => r@.timeout is None,
            },
            r@.signal == cancellation,
            may_be_now(r@.started),
            r@.deadline == 0,
            r@.gc_after == gc_after,
            r@.since_gc == 0,
    {
        let timeout: Option<u128> = match timeout {
            Some(budget) => Some(nanos(&budget)),
            None => None,
        };
        ExecutionPolicy {
            timeout,
            cancellation,
            deadline: Deadline::default(),
            gc_after,
            since_gc: 0,
        }
    }

    /// Returns whether the signal asks for cancellation. Without a signal nothing does.
    pub fn is_cancelled(&self) -> (r: bool)
        ensures
            self@.may_be_cancelled(r),
    {
        match &self.cancellation {
            Some(signal) => signal.is_cancelled(),
            None => false,
        }
    }

    /// Starts an execution at a given time, given whether it is cancelled already.
    pub fn begin_at(&mut self, cancelled: bool, elapsed: u128) -> (r: Result<(), Error>)
        ensures
            old(self)@.begins(cancelled, elapsed, final(self)@, r),
    {
        if cancelled {
            return Err(Error::cancelled());
        }
        match self.timeout {
            Some(budget) => self.deadline.arm_at(elapsed, budget),
            None => Ok(()),
        }
    }

    /// Starts an execution now. A cancelled execution does not start.
    pub fn begin(&mut self) -> (r: Result<(), Error>)
        ensures
            exists|cancelled: bool, elapsed: u128| #[trigger]
                old(self)@.may_be_cancelled(cancelled) && #[trigger] may_elapse(old(self)@.started, elapsed)
                    && elapsed < DURATION_LIMIT && old(self)@.begins(
                    cancelled,
                    elapsed,
                    final(self)@,
                    r,
                ),
    {
        let cancelled = self.is_cancelled();
        let elapsed: u128 = self.deadline.elapsed();
        self.begin_at(cancelled, elapsed)
    }

    /// Returns whether an execution must stop, given whether it is cancelled and the time.
    pub fn should_abort_at(&self, cancelled: bool, elapsed: u128) -> (r: bool)
        ensures
            r == (cancelled || has_come(self@.deadline, elapsed)),
    {
        cancelled || self.deadline.expired_at(elapsed)
    }

    /// Returns whether the current execution must stop.
    pub fn should_abort(&self) -> (r: bool)
        ensures
            exists|cancelled: bool, elapsed: u128| #[trigger]
                self@.may_be_cancelled(cancelled) && #[trigger] may_elapse(self@.started, elapsed)
                    && r == (cancelled || has_come(self@.deadline, elapsed)),
    {
        let cancelled = self.is_cancelled();
        let elapsed: u128 = self.deadline.elapsed();
        assert(may_elapse(self@.started, elapsed));
        self.should_abort_at(cancelled, elapsed)
    }

    /// Reports the result of an execution, given whether it is cancelled and the time.
    pub fn classify_at<R>(&self, result: Result<R, Error>, cancelled: bool, elapsed: u128) -> (r:
        Result<R, Error>)
        ensures
            r == classified(result, cancelled, has_come(self@.deadline, elapsed)),
    {
        match result {
            Err(error) => {
                if error.is_interrupt() && cancelled {
                    Err(Error::cancelled())
                } else if error.is_interrupt() && self.deadline.expired_at(elapsed) {
                    Err(Error::timeout())
                } else {
                    Err(error)
                }
            }
            Ok(value) => Ok(value),
        }
    }

    /// Reports the result of an execution that ends now.
    pub fn classify<R>(&self, result: Result<R, Error>) -> (r: Result<R, Error>)
        ensures
            exists|cancelled: bool, elapsed: u128| #[trigger]
                self@.may_be_cancelled(cancelled) && #[trigger] may_elapse(self@.started, elapsed)
                    && r == classified(result, cancelled, has_come(self@.deadline, elapsed)),
    {
        let cancelled = self.is_cancelled();
        let elapsed: u128 = self.deadline.elapsed();
        assert(may_elapse(self@.started, elapsed));
        self.classify_at(result, cancelled, elapsed)
    }

    /// Removes the deadline of an execution that has ended.
    pub fn disarm(&mut self)
        ensures
            final(self)@ == (PolicyView { deadline: 0, ..old(self)@ }),
    {
        self.deadline.disarm();
    }

    /// Counts an execution and returns whether garbage is to be collected behind it.
    pub fn should_gc(&mut self) -> (r: bool)
        ensures
            r == old(self)@.gc_is_due(),
            final(self)@ == old(self)@.counted(),
    {
        match self.gc_after {
            Some(limit) => {
                if self.since_gc < limit && self.since_gc + 1 < limit {
                    self.since_gc = self.since_gc + 1;
                    false
                } else {
                    self.since_gc = 0;
                    true
                }
            }
            None => false,
        }
    }

    /// Ends an execution at a given time: reports its result, removes its deadline and returns
    /// whether garbage is to be collected behind it.
    pub fn finish_at<R>(&mut self, result: Result<R, Error>, cancelled: bool, elapsed: u128) -> (r:
        (Result<R, Error>, bool))
        ensures
            r.0 == classified(result, cancelled, has_come(old(self)@.deadline, elapsed)),
            r.1 == old(self)@.gc_is_due(),
            final(self)@ == (PolicyView { deadline: 0, ..old(self)@.counted() }),
    {
        let result = self.classify_at(result, cancelled, elapsed);
        self.disarm();
        let collect = self.should_gc();
        (result, collect)
    }

    /// Ends an execution now.
    pub fn finish<R>(&mut self, result: Result<R, Error>) -> (r: (Result<R, Error>, bool))
        ensures
            exists|cancelled: bool, elapsed: u128| #[trigger]
                old(self)@.may_be_cancelled(cancelled) && #[trigger] may_elapse(old(self)@.started, elapsed)
                    && r.0 == classified(
                    result,
                    cancelled,
                    has_come(old(self)@.deadline, elapsed),
                ),
            r.1 == old(self)@.gc_is_due(),
            final(self)@ == (PolicyView { deadline: 0, ..old(self)@.counted() }),
    {
        let cancelled = self.is_cancelled();
        let elapsed: u128 = self.deadline.elapsed();
        self.finish_at(result, cancelled, elapsed)
    }
}

/// A budget that is armed at a time has come at exactly the times from its end on, and before that
/// it has not.
pub proof fn law_deadline_comes_at_the_end_of_the_budget(elapsed: u128, budget: u128, now: u128)
    requires
        0 < elapsed + budget < DEADLINE_MODULUS,
        now < DEADLINE_MODULUS,
    ensures
        has_come(ends_at(elapsed, budget), now) <==> now >= elapsed + budget,
{
}

/// A deadline that has come stays so, and one that was removed never comes.
pub proof fn law_deadline_never_goes_back(at: u64, earlier: u128, later: u128)
    requires
        earlier <= later < DEADLINE_MODULUS,
    ensures
        has_come(at, earlier) ==> has_come(at, later),
        !has_come(0, later),
{
}

/// Behind a removed deadline no time stops an execution or turns its interrupt into a timeout, and
/// the counting of executions goes on as if the deadline had stayed.
pub proof fn law_removed_deadline_stops_nothing<R>(
    policy: PolicyView,
    result: Result<R, Error>,
    elapsed: u128,
)
    ensures
        ({
            let disarmed = PolicyView { deadline: 0, ..policy };
            &&& !has_come(disarmed.deadline, elapsed)
            &&& classified(result, false, has_come(disarmed.deadline, elapsed)) == result
            &&& disarmed.gc_is_due() == policy.gc_is_due()
            &&& disarmed.counted() == (PolicyView { deadline: 0, ..policy.counted() })
        }),
{
}

/// Only an interrupt is ever reported as something else, a cancellation takes precedence over a
/// timeout, and reporting twice changes nothing.
pub proof fn law_classification_refines_interrupts_only<R>(
    result: Result<R, Error>,
    cancelled: bool,
    expired: bool,
)
    ensures
        result != Err::<R, Error>(Error::Interrupted) ==> classified(result, cancelled, expired)
            == result,
        result == Err::<R, Error>(Error::Interrupted) && cancelled ==> classified(
            result,
            cancelled,
            expired,
        ) == Err::<R, Error>(Error::Cancelled),
        classified(classified(result, cancelled, expired), cancelled, expired) == classified(
            result,
            cancelled,
            expired,
        ),
{
}

proof fn lemma_count_behind_collections(policy: PolicyView, limit: u32, times: nat)
    requires
        policy.gc_after == Some(limit),
        policy.since_gc == 0,
        limit >= 1,
    ensures
        policy.counted_times(times).gc_after == Some(limit),
        policy.counted_times(times).since_gc == times % (limit as nat),
    decreases times,
{
    if times > 0 {
        let before = (times - 1) as nat;
        lemma_count_behind_collections(policy, limit, before);
        let n = limit as int;
        let b = before as int;
        vstd::arithmetic::div_mod::lemma_fundamental_div_mod(b, n);
        vstd::arithmetic::div_mod::lemma_mod_bound(b, n);
        let q = b / n;
        let m = b % n;
        if m + 1 == n {
            assert(b + 1 == n * (q + 1)) by (nonlinear_arith)
                requires
                    b == n * q + m,
                    m + 1 == n,
            ;
            vstd::arithmetic::div_mod::lemma_fundamental_div_mod_converse(b + 1, n, q + 1, 0);
        } else {
            vstd::arithmetic::div_mod::lemma_fundamental_div_mod_converse(b + 1, n, q, m + 1);
        }
    }
}

/// With a limit of `n` executions, garbage is collected behind every `n`-th execution and behind no
/// other, where a limit of zero acts as one. Without a limit it never is.
pub proof fn law_garbage_is_collected_every_nth_execution(
    policy: PolicyView,
    limit: u32,
    execution: nat,
)
    requires
        policy.since_gc == 0,
        execution >= 1,
    ensures
        policy.gc_after == Some(limit) ==> (policy.counted_times(
            (execution - 1) as nat,
        ).gc_is_due() <==> execution % (if limit == 0 {
            1
        } else {
            limit as nat
        }) == 0),
        policy.gc_after is None ==> !policy.counted_times((execution - 1) as nat).gc_is_due(),
{
    if policy.gc_after == Some(limit) && limit >= 1 {
        lemma_count_behind_collections(policy, limit, (execution - 1) as nat);
        lemma_count_behind_collections(policy, limit, execution);
        assert(policy.counted_times(execution) == policy.counted_times(
            (execution - 1) as nat,
        ).counted());
    }
    if policy.gc_after == Some(0u32) {
        lemma_limit_is_kept(policy, (execution - 1) as nat);
    }
    if policy.gc_after is None {
        lemma_unlimited(policy, (execution - 1) as nat);
    }
}

proof fn lemma_limit_is_kept(policy: PolicyView, times: nat)
    ensures
        policy.counted_times(times).gc_after == policy.gc_after,
    decreases times,
{
    if times > 0 {
        lemma_limit_is_kept(policy, (times - 1) as nat);
    }
}

proof fn lemma_unlimited(policy: PolicyView, times: nat)
    requires
        policy.gc_after is None,
    ensures
        policy.counted_times(times) == policy,
    decreases times,
{
    if times > 0 {
        lemma_unlimited(policy, (times - 1) as nat);
    }
}

impl Cancellation {
    /// The flag that copies share.
    pub closed spec fn flag(&self) -> AtomicBool {
        *self.0
    }
}

/// A new cancellation has a flag that was created unset.
pub proof fn law_cancellations_start_unset(made: Cancellation, default: Cancellation)
    requires
        call_ensures(Cancellation::new, (), made),
        call_ensures(<Cancellation as Default>::default, (), default),
    ensures
        call_ensures(AtomicBool::new, (false,), made.flag()),
        call_ensures(AtomicBool::new, (false,), default.flag()),
{
}

/// Requesting cancellation stores that the flag is set.
pub proof fn law_cancelling_sets_the_flag(cancellation: Cancellation)
    requires
        call_ensures(Cancellation::cancel, (&cancellation,), ()),
    ensures
        call_ensures(AtomicBool::store, (&cancellation.flag(), true, Ordering::Relaxed), ()),
{
}

/// Whether asking a signal gave an answer.
pub open spec fn answers<S: CancelSignal>(signal: &S, answer: bool) -> bool {
    call_ensures(S::is_cancelled, (signal,), answer)
}

/// Asking for cancellation gives what loading the flag gives, asked of the cancellation or of the
/// signal.
pub proof fn law_cancellation_is_the_flag(cancellation: Cancellation, own: bool, signal: bool)
    requires
        call_ensures(Cancellation::is_cancelled, (&cancellation,), own),
        answers(&cancellation, signal),
    ensures
        call_ensures(AtomicBool::load, (&cancellation.flag(), Ordering::Relaxed), own),
        call_ensures(AtomicBool::load, (&cancellation.flag(), Ordering::Relaxed), signal),
{
}

/// Asking a token as a signal gives what the token itself answers.
proof fn law_tokens_answer_themselves(token: tokio_util::sync::CancellationToken, answer: bool)
    requires
        answers(&token, answer),
    ensures
        call_ensures(token_is_cancelled, (&token,), answer),
{
}

/// A new deadline counts from the present, and the time that has passed is all of what the clock
/// gives since, in nanoseconds.
proof fn law_deadlines_read_the_clock(deadline: Deadline, elapsed: u128, made: Deadline)
    requires
        call_ensures(Deadline::elapsed, (&deadline,), elapsed),
        call_ensures(<Deadline as Default>::default, (), made),
    ensures
        call_ensures(present, (), made@.started),
        exists|since: Duration| #[trigger]
            call_ensures(time_since, (&deadline@.started,), since) && elapsed == seconds_of(since)
                * 1_000_000_000 + fraction_of(since),
{
    let since = choose|since: Duration|
        call_ensures(time_since, (&deadline@.started,), since) && elapsed == #[trigger] nanos_of(
            since,
        );
    assert(call_ensures(time_since, (&deadline@.started,), since));
}

} // verus!
