//! Limits on guest executions.

use std::sync::Arc;
use std::time::Duration;
use vstd::prelude::*;

use crate::errors::Error;
use crate::execution::{
    fraction_of, may_be_now, may_elapse, nanos, seconds_of, CancelSignal, Deadline,
    ExecutionPolicy, DURATION_LIMIT,
};

verus! {

/// A deadline that is set comes when its budget has passed, and not before. Whatever deadline there
/// was is gone.
pub proof fn law_armed_deadline_comes_with_its_budget(
    deadline: &mut Deadline,
    elapsed: u128,
    budget: u128,
    set: Result<(), Error>,
    now: u128,
    expired: bool,
)
    requires
        call_ensures(Deadline::arm_at, (deadline, elapsed, budget), set),
        call_ensures(Deadline::expired_at, (&*final(deadline), now), expired),
        0 < elapsed + budget < 0x1_0000_0000_0000_0000,
        now < 0x1_0000_0000_0000_0000,
    ensures
        set is Ok,
        expired <==> now >= elapsed + budget,
{
}

/// A deadline that is removed never comes.
pub proof fn law_disarmed_deadline_never_comes(deadline: &mut Deadline, now: u128, expired: bool)
    requires
        call_ensures(Deadline::disarm, (deadline,), ()),
        call_ensures(Deadline::expired_at, (&*final(deadline), now), expired),
    ensures
        !expired,
{
}

/// The budget of new limits is the configured duration in nanoseconds, and nothing has been counted
/// yet.
pub proof fn law_new_limits_are_those_configured(
    timeout: Option<Duration>,
    signal: Option<Arc<dyn CancelSignal>>,
    gc_after: Option<u32>,
    policy: ExecutionPolicy,
    now: u128,
    cancelled: bool,
    stop: bool,
)
    requires
        call_ensures(ExecutionPolicy::new, (timeout, signal, gc_after), policy),
        call_ensures(ExecutionPolicy::should_abort_at, (&policy, cancelled, now), stop),
    ensures
        policy@.timeout is Some <==> timeout is Some,
        timeout matches Some(budget) ==> policy@.timeout.unwrap() == seconds_of(budget)
            * 1_000_000_000 + fraction_of(budget),
        policy@.signal == signal,
        policy@.gc_after == gc_after,
        policy@.since_gc == 0,
        stop == cancelled,
{
}

/// Every execution that starts has the whole budget, whatever came before it: it must stop at
/// exactly the times from the end of its budget on, or when it is cancelled. Starting it changes
/// nothing else.
pub proof fn law_every_execution_has_its_own_budget(
    policy: &mut ExecutionPolicy,
    elapsed: u128,
    budget: u128,
    started: Result<(), Error>,
    cancelled: bool,
    now: u128,
    stop: bool,
)
    requires
        call_ensures(ExecutionPolicy::begin_at, (policy, false, elapsed), started),
        call_ensures(ExecutionPolicy::should_abort_at, (&*final(policy), cancelled, now), stop),
        old(policy)@.timeout == Some(budget),
        0 < elapsed + budget < 0x1_0000_0000_0000_0000,
        now < 0x1_0000_0000_0000_0000,
    ensures
        started is Ok,
        stop <==> cancelled || now >= elapsed + budget,
        final(policy)@.timeout == old(policy)@.timeout,
        final(policy)@.signal == old(policy)@.signal,
        final(policy)@.gc_after == old(policy)@.gc_after,
        final(policy)@.since_gc == old(policy)@.since_gc,
        final(policy)@.started == old(policy)@.started,
{
}

/// An execution starts unless it is cancelled or no duration holds the end of its budget.
pub proof fn law_execution_starts_unless_cancelled_or_too_long(
    policy: &mut ExecutionPolicy,
    cancelled: bool,
    elapsed: u128,
    started: Result<(), Error>,
)
    requires
        call_ensures(ExecutionPolicy::begin_at, (policy, cancelled, elapsed), started),
    ensures
        started is Ok <==> !cancelled && (old(policy)@.timeout matches Some(budget) ==> elapsed
            + budget < DURATION_LIMIT),
        cancelled ==> started == Err::<(), Error>(Error::Cancelled),
        started is Err && !cancelled ==> started->Err_0 is Unexpected,
        started is Err ==> final(policy)@ == old(policy)@,
{
}

/// Without a budget time never stops an execution: starting it leaves everything as it was, and
/// behind an execution that ended no deadline is left.
pub proof fn law_without_a_budget_time_stops_nothing<R>(
    policy: &mut ExecutionPolicy,
    result: Result<R, Error>,
    ended: (Result<R, Error>, bool),
    cancelled: bool,
    time: u128,
    next: &mut ExecutionPolicy,
    elapsed: u128,
    started: Result<(), Error>,
    now: u128,
    stop: bool,
)
    requires
        call_ensures(ExecutionPolicy::finish_at, (policy, result, cancelled, time), ended),
        old(next)@ == final(policy)@,
        call_ensures(ExecutionPolicy::begin_at, (next, false, elapsed), started),
        call_ensures(ExecutionPolicy::should_abort_at, (&*final(next), false, now), stop),
        old(policy)@.timeout is None,
    ensures
        started is Ok,
        !stop,
        final(next)@ == old(next)@,
{
}

/// The result of an execution is reported as it is, unless it is an interrupt: that is a
/// cancellation where the execution is cancelled, or else a timeout where its budget has passed, or
/// else still an interrupt. Ending the execution reports what the classification reports.
pub proof fn law_interrupts_are_reported_by_their_cause<R>(
    policy: &mut ExecutionPolicy,
    elapsed: u128,
    budget: u128,
    started: Result<(), Error>,
    ending: &mut ExecutionPolicy,
    result: Result<R, Error>,
    cancelled: bool,
    now: u128,
    reported: Result<R, Error>,
    ended: (Result<R, Error>, bool),
)
    requires
        call_ensures(ExecutionPolicy::begin_at, (policy, false, elapsed), started),
        old(policy)@.timeout == Some(budget),
        0 < elapsed + budget < 0x1_0000_0000_0000_0000,
        now < 0x1_0000_0000_0000_0000,
        *old(ending) == *final(policy),
        call_ensures(
            ExecutionPolicy::classify_at,
            (&*final(policy), result, cancelled, now),
            reported,
        ),
        call_ensures(ExecutionPolicy::finish_at, (ending, result, cancelled, now), ended),
    ensures
        result is Ok ==> reported == result,
        result matches Err(error) && !(error is Interrupted) ==> reported == result,
        result matches Err(error) && error is Interrupted && cancelled ==> reported == Err::<
            R,
            Error,
        >(Error::Cancelled),
        result matches Err(error) && error is Interrupted && !cancelled && now >= elapsed + budget
            ==> reported == Err::<R, Error>(Error::Timeout),
        result matches Err(error) && error is Interrupted && !cancelled && now < elapsed + budget
            ==> reported == result,
        ended.0 == reported,
{
}

/// An execution that ended leaves no deadline behind, keeps its limits, and asks for a garbage
/// collection where counting it on its own does.
pub proof fn law_ended_execution_leaves_no_deadline<R>(
    policy: &mut ExecutionPolicy,
    result: Result<R, Error>,
    cancelled: bool,
    time: u128,
    ended: (Result<R, Error>, bool),
    counting: &mut ExecutionPolicy,
    collect: bool,
    now: u128,
    stop: bool,
)
    requires
        call_ensures(ExecutionPolicy::finish_at, (policy, result, cancelled, time), ended),
        call_ensures(ExecutionPolicy::should_abort_at, (&*final(policy), false, now), stop),
        *old(counting) == *old(policy),
        call_ensures(ExecutionPolicy::should_gc, (counting,), collect),
    ensures
        !stop,
        ended.1 == collect,
        final(policy)@.since_gc == final(counting)@.since_gc,
        final(policy)@.timeout == old(policy)@.timeout,
        final(policy)@.signal == old(policy)@.signal,
        final(policy)@.gc_after == old(policy)@.gc_after,
        final(policy)@.started == old(policy)@.started,
        final(counting)@.deadline == old(counting)@.deadline,
{
}

/// Removing the deadline of an execution removes nothing else.
pub proof fn law_disarming_removes_only_the_deadline(
    policy: &mut ExecutionPolicy,
    cancelled: bool,
    now: u128,
    stop: bool,
)
    requires
        call_ensures(ExecutionPolicy::disarm, (policy,), ()),
        call_ensures(ExecutionPolicy::should_abort_at, (&*final(policy), cancelled, now), stop),
    ensures
        stop == cancelled,
        final(policy)@.timeout == old(policy)@.timeout,
        final(policy)@.signal == old(policy)@.signal,
        final(policy)@.gc_after == old(policy)@.gc_after,
        final(policy)@.since_gc == old(policy)@.since_gc,
        final(policy)@.started == old(policy)@.started,
{
}

/// Of executions that are counted one after another from a fresh start, exactly every `n`-th asks
/// for a garbage collection, where a limit of zero acts as one. Without a limit none does.
pub proof fn law_every_nth_execution_collects(
    executions: Seq<&mut ExecutionPolicy>,
    answers: Seq<bool>,
    i: int,
)
    requires
        0 <= i < executions.len(),
        answers.len() == executions.len(),
        executions[0]@.since_gc == 0,
        forall|k: int|
            0 <= k < executions.len() ==> call_ensures(
                ExecutionPolicy::should_gc,
                (#[trigger] executions[k],),
                answers[k],
            ),
        forall|k: int|
            #![trigger executions[k]]
            1 <= k < executions.len() ==> executions[k]@ == final(executions[k - 1])@,
    ensures
        executions[0]@.gc_after matches Some(limit) ==> (answers[i] <==> (i + 1) % (if limit == 0 {
            1
        } else {
            limit as int
        }) == 0),
        executions[0]@.gc_after is None ==> !answers[i],
{
    lemma_count_so_far(executions, answers, i);
    if executions[0]@.gc_after is Some && executions[0]@.gc_after.unwrap() >= 1 {
        lemma_next_remainder(i, executions[0]@.gc_after.unwrap() as int);
    }
}

proof fn lemma_next_remainder(count: int, limit: int)
    requires
        0 <= count,
        1 <= limit,
    ensures
        (count + 1) % limit == (if count % limit + 1 == limit {
            0
        } else {
            count % limit + 1
        }),
        0 <= count % limit < limit,
{
    vstd::arithmetic::div_mod::lemma_fundamental_div_mod(count, limit);
    vstd::arithmetic::div_mod::lemma_mod_bound(count, limit);
    let whole = count / limit;
    let rest = count % limit;
    if rest + 1 == limit {
        assert(count + 1 == limit * (whole + 1)) by (nonlinear_arith)
            requires
                count == limit * whole + rest,
                rest + 1 == limit,
        ;
        vstd::arithmetic::div_mod::lemma_fundamental_div_mod_converse(
            count + 1,
            limit,
            whole + 1,
            0,
        );
    } else {
        assert(count + 1 == whole * limit + (rest + 1)) by (nonlinear_arith)
            requires
                count == limit * whole + rest,
        ;
        vstd::arithmetic::div_mod::lemma_fundamental_div_mod_converse(
            count + 1,
            limit,
            whole,
            rest + 1,
        );
    }
}

proof fn lemma_count_so_far(executions: Seq<&mut ExecutionPolicy>, answers: Seq<bool>, i: int)
    requires
        0 <= i < executions.len(),
        answers.len() == executions.len(),
        executions[0]@.since_gc == 0,
        forall|k: int|
            0 <= k < executions.len() ==> call_ensures(
                ExecutionPolicy::should_gc,
                (#[trigger] executions[k],),
                answers[k],
            ),
        forall|k: int|
            #![trigger executions[k]]
            1 <= k < executions.len() ==> executions[k]@ == final(executions[k - 1])@,
    ensures
        executions[i]@.gc_after == executions[0]@.gc_after,
        executions[0]@.gc_after matches Some(limit) ==> (limit >= 1 ==> executions[i]@.since_gc == i
            % (limit as int)),
    decreases i,
{
    if i > 0 {
        lemma_count_so_far(executions, answers, i - 1);
        assert(executions[i]@ == final(executions[i - 1])@);
        assert(call_ensures(ExecutionPolicy::should_gc, (executions[i - 1],), answers[i - 1]));
        if executions[0]@.gc_after is Some && executions[0]@.gc_after.unwrap() >= 1 {
            lemma_next_remainder(i - 1, executions[0]@.gc_after.unwrap() as int);
        }
    }
}

/// Starting an execution now is starting it at the time that the clock shows.
pub proof fn law_executions_start_by_the_clock(
    policy: &mut ExecutionPolicy,
    started: Result<(), Error>,
    budget: u128,
)
    requires
        call_ensures(ExecutionPolicy::begin, (policy,), started),
        old(policy)@.signal is None,
        old(policy)@.timeout == Some(budget),
    ensures
        exists|elapsed: u128| #[trigger]
            may_elapse(old(policy)@.started, elapsed) && (0 < elapsed + budget
                < 0x1_0000_0000_0000_0000 ==> started is Ok && forall|now: u128, stop: bool|
                now < 0x1_0000_0000_0000_0000 && #[trigger] call_ensures(
                    ExecutionPolicy::should_abort_at,
                    (&*final(policy), false, now),
                    stop,
                ) ==> (stop <==> now >= elapsed + budget)),
        final(policy)@.timeout == old(policy)@.timeout,
        final(policy)@.gc_after == old(policy)@.gc_after,
        final(policy)@.since_gc == old(policy)@.since_gc,
{
}

/// Without a signal nothing is ever cancelled, and with one an execution starts and stops by what
/// the signal reads.
pub proof fn law_cancellation_is_what_the_signal_reads(
    policy: &mut ExecutionPolicy,
    started: Result<(), Error>,
    answer: bool,
)
    requires
        call_ensures(ExecutionPolicy::begin, (policy,), started),
        call_ensures(ExecutionPolicy::is_cancelled, (&*old(policy),), answer),
    ensures
        old(policy)@.signal is None ==> !answer && started != Err::<(), Error>(Error::Cancelled),
        old(policy)@.signal matches Some(signal) ==> signal.may_read(answer),
        started == Err::<(), Error>(Error::Cancelled) ==> (old(policy)@.signal matches Some(signal)
            && signal.may_read(true) && final(policy)@ == old(policy)@),
{
}

/// Asking now whether an execution must stop is asking it for the time that the clock shows and for
/// what the signal reads.
pub proof fn law_executions_stop_by_the_clock(policy: &ExecutionPolicy, stop: bool)
    requires
        call_ensures(ExecutionPolicy::should_abort, (policy,), stop),
    ensures
        exists|cancelled: bool, now: u128| #[trigger]
            may_elapse(policy@.started, now) && #[trigger] policy@.may_be_cancelled(cancelled) && (
            policy@.signal matches Some(signal) ==> signal.may_read(cancelled)) && (
            policy@.signal is None ==> !cancelled) && forall|answer: bool| #[trigger]
                call_ensures(ExecutionPolicy::should_abort_at, (policy, cancelled, now), answer)
                    ==> stop == answer,
{
}

/// Reporting the result of an execution now is reporting it for the time that the clock shows and
/// for what the signal reads.
pub proof fn law_results_are_reported_by_the_clock<R>(
    policy: &ExecutionPolicy,
    result: Result<R, Error>,
    reported: Result<R, Error>,
)
    requires
        call_ensures(ExecutionPolicy::classify, (policy, result), reported),
    ensures
        exists|cancelled: bool, now: u128| #[trigger]
            may_elapse(policy@.started, now) && #[trigger] policy@.may_be_cancelled(cancelled)
                && (policy@.signal is None ==> !cancelled)
                    && forall|answer: Result<R, Error>| #[trigger]
                call_ensures(
                    ExecutionPolicy::classify_at,
                    (policy, result, cancelled, now),
                    answer,
                ) ==> reported == answer,
{
}

/// Ending an execution now is ending it at the time that the clock shows.
pub proof fn law_executions_end_by_the_clock<R>(
    policy: &mut ExecutionPolicy,
    result: Result<R, Error>,
    ended: (Result<R, Error>, bool),
)
    requires
        call_ensures(ExecutionPolicy::finish, (policy, result), ended),
    ensures
        exists|cancelled: bool, now: u128| #[trigger]
            may_elapse(old(policy)@.started, now) && #[trigger] old(policy)@.may_be_cancelled(
                cancelled,
            ) && (old(policy)@.signal is None ==> !cancelled)
                && forall|other: &mut ExecutionPolicy, answer: (Result<R, Error>, bool)|
                *old(policy) == *other && #[trigger] call_ensures(
                    ExecutionPolicy::finish_at,
                    (other, result, cancelled, now),
                    answer,
                ) ==> ended == answer && final(policy)@ == final(other)@,
{
}

/// A duration has a thousand million nanoseconds for each of its seconds, and those of its
/// fraction.
pub proof fn law_durations_are_counted_in_nanoseconds(duration: Duration, count: u128)
    requires
        call_ensures(nanos, (&duration,), count),
    ensures
        count == seconds_of(duration) * 1_000_000_000 + fraction_of(duration),
{
}

/// A deadline is set to the end of its budget, cut to 64 bits. A budget whose end no duration holds
/// is refused and leaves the deadline as it was.
pub proof fn law_deadlines_are_set_to_the_end_of_their_budget(
    deadline: &mut Deadline,
    elapsed: u128,
    budget: u128,
    set: Result<(), Error>,
)
    requires
        call_ensures(Deadline::arm_at, (deadline, elapsed, budget), set),
    ensures
        set is Ok <==> elapsed + budget < 0x1_0000_0000_0000_0000 * 1_000_000_000,
        set is Ok ==> final(deadline)@.at == (elapsed + budget) % 0x1_0000_0000_0000_0000,
        set matches Err(error) ==> final(deadline)@.at == old(deadline)@.at && (
        error matches Error::Unexpected { message, source } && message@
            == "overflow when adding durations"@ && source is None),
        final(deadline)@.started == old(deadline)@.started,
{
}

/// A deadline comes with the first time, cut to 64 bits, that is not before it, and one of zero
/// never does.
pub proof fn law_deadlines_come_with_their_time(deadline: Deadline, now: u128, expired: bool)
    requires
        call_ensures(Deadline::expired_at, (&deadline, now), expired),
    ensures
        expired <==> deadline@.at > 0 && now % 0x1_0000_0000_0000_0000 >= deadline@.at,
{
}

/// A new deadline is not set, and counts from the present.
pub proof fn law_new_deadlines_are_not_set(deadline: Deadline, now: u128, expired: bool)
    requires
        call_ensures(<Deadline as Default>::default, (), deadline),
        call_ensures(Deadline::expired_at, (&deadline, now), expired),
    ensures
        !expired,
        may_be_now(deadline@.started),
{
}

/// Setting a deadline now is setting it at the time that the clock shows.
pub proof fn law_deadlines_are_set_by_the_clock(
    deadline: &mut Deadline,
    budget: u128,
    set: Result<(), Error>,
)
    requires
        call_ensures(Deadline::arm, (deadline, budget), set),
    ensures
        exists|elapsed: u128| #[trigger]
            may_elapse(old(deadline)@.started, elapsed) && (set is Ok <==> elapsed + budget
                < 0x1_0000_0000_0000_0000 * 1_000_000_000) && final(deadline)@.at == (if set is Ok {
                ((elapsed + budget) % 0x1_0000_0000_0000_0000) as u64
            } else {
                old(deadline)@.at
            }),
        final(deadline)@.started == old(deadline)@.started,
{
}

/// Asking now whether a deadline has come is asking it for the time that the clock shows.
pub proof fn law_deadlines_come_by_the_clock(deadline: Deadline, expired: bool)
    requires
        call_ensures(Deadline::expired, (&deadline,), expired),
    ensures
        exists|now: u128| #[trigger]
            may_elapse(deadline@.started, now) && (expired <==> deadline@.at > 0 && now
                % 0x1_0000_0000_0000_0000 >= deadline@.at),
{
}

/// Limits that are not configured never stop an execution and never ask for a garbage collection.
pub proof fn law_default_limits_stop_nothing(
    policy: ExecutionPolicy,
    counting: &mut ExecutionPolicy,
    collect: bool,
    now: u128,
    stop: bool,
    starting: &mut ExecutionPolicy,
    elapsed: u128,
    started: Result<(), Error>,
)
    requires
        call_ensures(<ExecutionPolicy as Default>::default, (), policy),
        *old(counting) == policy,
        *old(starting) == policy,
        call_ensures(ExecutionPolicy::should_gc, (counting,), collect),
        call_ensures(ExecutionPolicy::should_abort_at, (&policy, false, now), stop),
        call_ensures(ExecutionPolicy::begin_at, (starting, false, elapsed), started),
    ensures
        policy@.signal is None,
        policy@.timeout is None,
        policy@.gc_after is None,
        !collect,
        !stop,
        started is Ok,
        final(starting)@.deadline == 0,
{
}

/// An execution that starts with a budget gets the end of it as its deadline, cut to 64 bits,
/// whatever the deadline was; without a budget the deadline stays. One that does not start says
/// why.
pub proof fn law_starting_sets_the_deadline(
    policy: &mut ExecutionPolicy,
    cancelled: bool,
    elapsed: u128,
    started: Result<(), Error>,
)
    requires
        call_ensures(ExecutionPolicy::begin_at, (policy, cancelled, elapsed), started),
    ensures
        started is Ok ==> final(policy)@.deadline == (match old(policy)@.timeout {
            Some(budget) => ((elapsed + budget) % 0x1_0000_0000_0000_0000) as u64,
            None => old(policy)@.deadline,
        }),
        started is Err ==> final(policy)@.deadline == old(policy)@.deadline,
        started matches Err(error) ==> if cancelled {
            error is Cancelled
        } else {
            error matches Error::Unexpected { message, source } && message@
                == "overflow when adding durations"@ && source is None
        },
        final(policy)@.timeout == old(policy)@.timeout,
        final(policy)@.signal == old(policy)@.signal,
        final(policy)@.gc_after == old(policy)@.gc_after,
        final(policy)@.since_gc == old(policy)@.since_gc,
        final(policy)@.started == old(policy)@.started,
{
}

/// An execution must stop when it is cancelled, and from its deadline on.
pub proof fn law_executions_stop_at_their_deadline(
    policy: ExecutionPolicy,
    cancelled: bool,
    now: u128,
    stop: bool,
)
    requires
        call_ensures(ExecutionPolicy::should_abort_at, (&policy, cancelled, now), stop),
    ensures
        stop <==> cancelled || (policy@.deadline > 0 && now % 0x1_0000_0000_0000_0000
            >= policy@.deadline),
{
}

/// Only an interrupt is reported as anything else than it is: as a cancellation where the execution
/// is cancelled, or else as a timeout from its deadline on.
pub proof fn law_only_interrupts_are_reclassified<R>(
    policy: ExecutionPolicy,
    result: Result<R, Error>,
    cancelled: bool,
    now: u128,
    reported: Result<R, Error>,
    stop: bool,
)
    requires
        call_ensures(ExecutionPolicy::classify_at, (&policy, result, cancelled, now), reported),
        call_ensures(ExecutionPolicy::should_abort_at, (&policy, false, now), stop),
    ensures
        reported != result ==> (result matches Err(error) && error is Interrupted),
        result matches Err(error) ==> error is Interrupted ==> (reported matches Err(told)
            && if cancelled {
            told is Cancelled
        } else if stop {
            told is Timeout
        } else {
            told is Interrupted
        }),
{
}

/// Counting an execution asks for a garbage collection once as many were counted as the limit says,
/// and then counts from zero again; without a limit nothing is counted. Counting changes nothing
/// else.
pub proof fn law_counting_an_execution_counts_one(
    policy: &mut ExecutionPolicy,
    collect: bool,
)
    requires
        call_ensures(ExecutionPolicy::should_gc, (policy,), collect),
    ensures
        collect <==> (old(policy)@.gc_after matches Some(limit) && old(policy)@.since_gc + 1
            >= limit),
        final(policy)@.since_gc == (if collect {
            0
        } else if old(policy)@.gc_after is Some {
            old(policy)@.since_gc + 1
        } else {
            old(policy)@.since_gc as int
        }),
        final(policy)@.gc_after == old(policy)@.gc_after,
        final(policy)@.timeout == old(policy)@.timeout,
        final(policy)@.signal == old(policy)@.signal,
        final(policy)@.deadline == old(policy)@.deadline,
        final(policy)@.started == old(policy)@.started,
{
}

/// Starting an execution now is starting it at the time that the clock shows and for what the
/// signal reads.
pub proof fn law_executions_start_by_the_clock_and_the_signal(
    policy: &mut ExecutionPolicy,
    started: Result<(), Error>,
)
    requires
        call_ensures(ExecutionPolicy::begin, (policy,), started),
    ensures
        exists|cancelled: bool, elapsed: u128| #[trigger]
            may_elapse(old(policy)@.started, elapsed) && #[trigger] old(policy)@.may_be_cancelled(
                cancelled,
            ) && (old(policy)@.signal matches Some(signal) ==> signal.may_read(cancelled)) && (
            old(policy)@.signal is None ==> !cancelled)
                && forall|other: &mut ExecutionPolicy, answer: Result<(), Error>|
                *old(policy) == *other && #[trigger] call_ensures(
                    ExecutionPolicy::begin_at,
                    (other, cancelled, elapsed),
                    answer,
                ) ==> final(policy)@ == final(other)@ && (started is Ok <==> answer is Ok) && (
                started == Err::<(), Error>(Error::Cancelled) <==> answer == Err::<(), Error>(
                    Error::Cancelled,
                )),
{
}

} // verus!
