//! Streams between host and guest.

use vstd::prelude::*;

use crate::errors::Error;
use crate::handle::kind::may_be_object;
use crate::host::module::AdapterError;
use crate::laws::errors::{says_conversion, says_unexpected};
use crate::laws::kind::is_object_type;
use crate::llrt::streams::readable::{
    branches, expect_result, read_outcome, read_result, Collected, Collector, HostReadableStream,
        Polled,
    PullEnd, PullStart, Reader,
};
use crate::llrt::streams::transform::{enqueue_all, enqueuing, outputs};
use crate::llrt::streams::writable::{HostWritableStream, Writer};
use crate::marshal::type_of_value;
use crate::steps::is_path;

verus! {

/// A stream starts with its source. A pull of the default controller takes the source, once: while
/// it is under way, and behind the end of the source, another pull closes the stream.
pub proof fn law_pull_takes_the_source<S>(
    source: S,
    fresh: HostReadableStream<S>,
    stream: &mut HostReadableStream<S>,
    default_controller: bool,
    start: PullStart<S>,
    next: &mut HostReadableStream<S>,
    second: PullStart<S>,
)
    requires
        call_ensures(HostReadableStream::<S>::from_stream, (source,), fresh),
        call_ensures(
            HostReadableStream::<S>::start_pull,
            (stream, default_controller),
            start,
        ),
        *old(next) == *final(stream),
        call_ensures(HostReadableStream::<S>::start_pull, (next, true), second),
    ensures
        fresh@.source == Some(source),
        !fresh@.cancelled,
        !default_controller ==> start is Refuse && final(stream)@ == old(stream)@,
        default_controller && !old(stream)@.cancelled ==> (old(stream)@.source matches Some(given)
            ==> start == PullStart::Advance(given)),
        start matches PullStart::Advance(given) ==> default_controller && old(stream)@.source
            == Some(given) && !old(stream)@.cancelled,
        default_controller && (old(stream)@.cancelled || old(stream)@.source is None)
            ==> start is Close,
        start is Advance ==> second is Close,
        final(stream)@.cancelled == old(stream)@.cancelled,
{
}

/// What the source gives is handed to the guest: a chunk as it is, an error as its text, and the
/// end as a close. Only behind a chunk is the source there for the next pull.
pub proof fn law_pull_hands_on_what_the_source_gives<S, T>(
    stream: &mut HostReadableStream<S>,
    source: S,
    given: Option<Result<T, Error>>,
    end: PullEnd<T>,
    next: &mut HostReadableStream<S>,
    second: PullStart<S>,
)
    requires
        call_ensures(HostReadableStream::<S>::end_pull::<T>, (stream, source, given), end),
        *old(next) == *final(stream),
        call_ensures(HostReadableStream::<S>::start_pull, (next, true), second),
        old(stream)@.source is None,
    ensures
        old(stream)@.cancelled ==> end is Close && second is Close,
        !old(stream)@.cancelled ==> (given matches Some(Ok(chunk)) ==> end == PullEnd::Enqueue(
            chunk,
        ) && second == PullStart::Advance(source)),
        !old(stream)@.cancelled ==> (given matches Some(Err(error)) ==> (end matches PullEnd::Fail(
            message,
        ) && error.reads_as(message@)) && second is Close),
        !old(stream)@.cancelled && given is None ==> end is Close && second is Close,
        final(stream)@.cancelled == old(stream)@.cancelled,
{
}

/// A cancelled stream gives nothing any more: its source is gone, every pull closes it, and what a
/// pull that was under way brings is dropped.
pub proof fn law_cancelled_stream_gives_nothing<S, T>(
    stream: &mut HostReadableStream<S>,
    next: &mut HostReadableStream<S>,
    start: PullStart<S>,
    under_way: &mut HostReadableStream<S>,
    source: S,
    given: Option<Result<T, Error>>,
    end: PullEnd<T>,
)
    requires
        call_ensures(HostReadableStream::<S>::cancel, (stream,), ()),
        *old(next) == *final(stream),
        call_ensures(HostReadableStream::<S>::start_pull, (next, true), start),
        *old(under_way) == *final(stream),
        call_ensures(HostReadableStream::<S>::end_pull::<T>, (under_way, source, given), end),
    ensures
        final(stream)@.cancelled,
        final(stream)@.source is None,
        start is Close,
        end is Close,
        final(under_way)@.source is None,
        final(under_way)@.cancelled,
{
}

/// A read that is done has no chunk, one that is not has the chunk that is found in it, and
/// whatever fails on the way is the error.
pub proof fn law_reads_end_by_what_they_hold<O, T, D, F>(
    result: Result<O, Error>,
    done: D,
    chunk: F,
    outcome: Result<Option<T>, Error>,
) where D: Fn(&O) -> Result<bool, Error>, F: Fn(&O) -> Result<T, Error>
    requires
        call_ensures(read_outcome::<O, T, D, F>, (result, done, chunk), outcome),
    ensures
        result matches Err(error) ==> outcome == Err::<Option<T>, Error>(error),
        result matches Ok(object) ==> (outcome matches Ok(None) ==> call_ensures(
            done,
            (&object,),
            Ok::<bool, Error>(true),
        )),
        result matches Ok(object) ==> (outcome matches Ok(Some(item)) ==> call_ensures(
            done,
            (&object,),
            Ok::<bool, Error>(false),
        ) && call_ensures(chunk, (&object,), Ok::<T, Error>(item))),
        result matches Ok(object) ==> (outcome matches Err(error) ==> call_ensures(
            done,
            (&object,),
            Err::<bool, Error>(error),
        ) || (call_ensures(done, (&object,), Ok::<bool, Error>(false)) && call_ensures(
            chunk,
            (&object,),
            Err::<T, Error>(error),
        ))),
{
}

/// The result of a read is an object or an error.
pub proof fn law_read_results_are_objects<O>(found: Option<O>, result: Result<O, Error>)
    requires
        call_ensures(expect_result::<O>, (found,), result),
    ensures
        result is Ok <==> found is Some,
        result matches Ok(object) ==> found == Some(object),
        result matches Err(error) ==> says_conversion(error, "read() result is not an object"@),
{
}

/// A stream is collected chunk by chunk: every chunk is kept behind the others, the end gives all
/// of them, and an error gives none.
pub proof fn law_all_chunks_are_collected<T>(
    fresh: Collector<T>,
    collector: Collector<T>,
    read: Result<Option<T>, Error>,
    collected: Collected<T>,
)
    requires
        call_ensures(Collector::<T>::new, (), fresh),
        call_ensures(Collector::<T>::take, (collector, read), collected),
    ensures
        fresh@.len() == 0,
        collected is More <==> (read matches Ok(Some(_))),
        collected is Done <==> (read matches Ok(None)),
        collected matches Collected::More(next) ==> next@.len() == collector@.len() + 1
            && next@.drop_last() == collector@ && read == Ok::<Option<T>, Error>(
            Some(next@.last()),
        ),
        collected matches Collected::Done(chunks) ==> chunks@ == collector@,
        collected matches Collected::Failed(error) ==> read == Err::<Option<T>, Error>(error),
{
    if collected is More {
        assert(collected->More_0@.drop_last() =~= collector@);
    }
}

/// A stream is split into exactly two, in order.
pub proof fn law_a_stream_is_split_in_two<T>(found: Vec<T>, split: Result<(T, T), Error>)
    requires
        call_ensures(branches::<T>, (found,), split),
    ensures
        split is Ok <==> found@.len() == 2,
        split matches Ok(both) ==> both.0 == found@[0] && both.1 == found@[1],
        split matches Err(error) ==> says_conversion(error, "tee() did not return two streams"@),
{
}

/// A reader polls the read that is under way, or else starts one, and gives what it gives: a chunk,
/// an error, or the end. The read stays under way exactly while it is pending.
pub proof fn law_reader_polls_one_read<P, T, N, F>(
    fresh: Reader<P>,
    reader: &mut Reader<P>,
    start: N,
    poll: F,
    result: Polled<Option<Result<T, Error>>>,
) where N: FnOnce() -> P, F: Fn(P) -> (P, Polled<Result<Option<T>, Error>>)
    requires
        call_ensures(Reader::<P>::new, (), fresh),
        call_ensures(Reader::<P>::poll_next::<T, N, F>, (reader, start, poll), result),
    ensures
        fresh@ is None,
        exists|read: P, after: P, polled: Polled<Result<Option<T>, Error>>| #[trigger]
            call_ensures(poll, (read,), (after, polled)) && (old(reader)@ matches Some(under_way)
                ==> read == under_way) && (old(reader)@ is None ==> call_ensures(start, (), read))
                && (result is Pending <==> polled is Pending) && (result is Pending ==> final(
                reader)@ == Some(after)) && (!(result is Pending) ==> final(reader)@ is None) && (
            polled matches Polled::Ready(Ok(None)) ==> (result matches Polled::Ready(None))) && (
            polled matches Polled::Ready(Ok(Some(chunk))) ==> (result matches Polled::Ready(
                Some(Ok(given)),
            ) && given == chunk)) && (polled matches Polled::Ready(Err(error)) ==> (
            result matches Polled::Ready(Some(Err(given))) && given == error)),
{
    let read = match old(reader)@ {
        Some(under_way) => under_way,
        None => choose|read: P| #[trigger]
            call_ensures(start, (), read)
                && crate::llrt::streams::readable::polled_next(
                poll,
                read,
                result,
                final(reader)@,
            ),
    };
    let (after, polled) = choose|after: P, polled: Polled<Result<Option<T>, Error>>| #[trigger]
        crate::llrt::streams::readable::polls(poll, read, after, polled) && result
            == crate::llrt::streams::readable::next_of(polled) && final(reader)@ == (
        if polled is Pending {
            Some(after)
        } else {
            None
        });
    assert(call_ensures(poll, (read,), (after, polled)));
}

/// Outputs are handed on as they are, and a failed transform throws the text of its error.
pub proof fn law_failed_transforms_are_thrown<O, E>(
    transformed: Result<Vec<O>, Error>,
    handed: Result<Vec<O>, AdapterError<E>>,
)
    requires
        call_ensures(outputs::<O, E>, (transformed,), handed),
    ensures
        transformed matches Ok(given) ==> handed == Ok::<Vec<O>, AdapterError<E>>(given),
        transformed matches Err(error) ==> (handed matches Err(AdapterError::Throw(message))
            && error.reads_as(message@)),
{
}

/// Whether an output was converted and handed to the guest.
pub open spec fn reaches_the_guest<O, V, E, W, F, G>(
    convert: F,
    enqueue: G,
    output: O,
    before: W,
    after: W,
) -> bool where F: Fn(W, O) -> (W, Result<V, Error>), G: Fn(W, V) -> (W, Result<(), E>) {
    exists|between: W, value: V|
        #![trigger call_ensures(convert, (before, output), (between, Ok::<V, Error>(value)))]
        call_ensures(convert, (before, output), (between, Ok::<V, Error>(value))) && call_ensures(
            enqueue,
            (between, value),
            (after, Ok::<(), E>(())),
        )
}

/// Whether an output could not be converted, or the guest did not take it.
pub open spec fn is_stuck<O, V, E, W, F, G>(
    convert: F,
    enqueue: G,
    output: O,
    before: W,
    after: W,
    thrown: AdapterError<E>,
) -> bool where F: Fn(W, O) -> (W, Result<V, Error>), G: Fn(W, V) -> (W, Result<(), E>) {
    match thrown {
        AdapterError::Throw(message) => exists|error: Error|
            #![trigger call_ensures(convert, (before, output), (after, Err::<V, Error>(error)))]
            call_ensures(convert, (before, output), (after, Err::<V, Error>(error)))
                && error.reads_as(message@),
        AdapterError::Engine(cause) => exists|between: W, value: V|
            #![trigger call_ensures(convert, (before, output), (between, Ok::<V, Error>(value)))]
            call_ensures(convert, (before, output), (between, Ok::<V, Error>(value)))
                && call_ensures(enqueue, (between, value), (after, Err::<(), E>(cause))),
    }
}

/// The outputs of a transform reach the guest in order, each on what the one before it left, until
/// one is stuck: a success has handed all of them over, and none comes behind one that is stuck.
pub proof fn law_outputs_reach_the_guest_in_order<O, V, E, W, F, G>(
    outputs: Vec<O>,
    state: W,
    convert: F,
    enqueue: G,
    end: W,
    outcome: Result<(), AdapterError<E>>,
) where F: Fn(W, O) -> (W, Result<V, Error>), G: Fn(W, V) -> (W, Result<(), E>)
    requires
        call_ensures(
            enqueue_all::<O, V, E, W, F, G>,
            (outputs, state, convert, enqueue),
            (end, outcome),
        ),
    ensures
        exists|states: Seq<W>|
            #![trigger states.len()]
            states.len() > 0 && states[0] == state && (forall|i: int|
                0 <= i < states.len() - 1 ==> #[trigger] reaches_the_guest::<O, V, E, W, F, G>(
                    convert,
                    enqueue,
                    outputs@[i],
                    states[i],
                    states[i + 1],
                )) && match outcome {
                Ok(_) => states.len() == outputs@.len() + 1 && states.last() == end,
                Err(thrown) => states.len() <= outputs@.len() && is_stuck::<O, V, E, W, F, G>(
                    convert,
                    enqueue,
                    outputs@[states.len() - 1],
                    states.last(),
                    end,
                    thrown,
                ),
            },
{
    let step = enqueuing::<O, V, E, W, F, G>(convert, enqueue, outputs@);
    let states = choose|states: Seq<W>| #[trigger]
        is_path(step, state, states) && match outcome {
            Ok(_) => states.len() == outputs@.len() + 1 && states.last() == end,
            Err(error) => states.len() <= outputs@.len() && step(
                states.len() - 1,
                states.last(),
                end,
                Err(error),
            ),
        };
    assert(states.len() > 0);
    assert forall|i: int|
        0 <= i < states.len() - 1 implies #[trigger] reaches_the_guest::<O, V, E, W, F, G>(
        convert,
        enqueue,
        outputs@[i],
        states[i],
        states[i + 1],
    ) by {
        assert(step(i, states[i], states[i + 1], Ok(())));
    }
}

/// A stream starts with its sink. Writing a chunk takes the sink along with the chunk, and only a
/// write that succeeds gives it back; a chunk that cannot be converted leaves it.
pub proof fn law_writes_take_the_sink<K, T>(
    sink: K,
    fresh: HostWritableStream<K>,
    stream: &mut HostWritableStream<K>,
    chunk: Result<T, Error>,
    started: Result<(T, K), Error>,
    ending: &mut HostWritableStream<K>,
    back: K,
    sent: Result<(), Error>,
    ended: Result<(), Error>,
)
    requires
        call_ensures(HostWritableStream::<K>::from_sink, (sink,), fresh),
        call_ensures(HostWritableStream::<K>::start_write::<T>, (stream, chunk), started),
        call_ensures(HostWritableStream::<K>::end_write, (ending, back, sent), ended),
    ensures
        fresh@ == Some(sink),
        chunk matches Err(error) ==> started == Err::<(T, K), Error>(error) && final(stream)@
            == old(stream)@,
        chunk matches Ok(given) ==> (old(stream)@ matches Some(own) ==> started == Ok::<
            (T, K),
            Error,
        >((given, own))) && final(stream)@ is None,
        chunk is Ok && old(stream)@ is None ==> (started matches Err(error) && says_unexpected(
            error,
            "write after the sink was closed"@,
        )),
        ended == sent,
        sent is Ok ==> final(ending)@ == Some(back),
        sent is Err ==> final(ending)@ == old(ending)@,
{
}

/// Closing hands the sink out, once, and behind a close or an abort every write is refused.
pub proof fn law_closed_streams_take_nothing<K, T>(
    stream: &mut HostWritableStream<K>,
    sink: Option<K>,
    again: &mut HostWritableStream<K>,
    second: Option<K>,
    aborted: &mut HostWritableStream<K>,
    next: &mut HostWritableStream<K>,
    chunk: T,
    started: Result<(T, K), Error>,
    behind: &mut HostWritableStream<K>,
    refused: Result<(T, K), Error>,
)
    requires
        call_ensures(HostWritableStream::<K>::close, (stream,), sink),
        *old(again) == *final(stream),
        call_ensures(HostWritableStream::<K>::close, (again,), second),
        call_ensures(HostWritableStream::<K>::abort, (aborted,), ()),
        *old(next) == *final(aborted),
        call_ensures(
            HostWritableStream::<K>::start_write::<T>,
            (next, Ok::<T, Error>(chunk)),
            started,
        ),
        *old(behind) == *final(stream),
        call_ensures(
            HostWritableStream::<K>::start_write::<T>,
            (behind, Ok::<T, Error>(chunk)),
            refused,
        ),
    ensures
        sink == old(stream)@,
        second is None,
        started matches Err(error) && says_unexpected(error, "write after the sink was closed"@),
        refused matches Err(error) && says_unexpected(error, "write after the sink was closed"@),
        final(aborted)@ is None,
{
}

/// Whether a poll asked what is under way, if anything is, gave its answer, and kept it under way
/// exactly while it is pending. Where nothing is under way it is ready.
pub open spec fn asks_what_is_under_way<P, F>(
    poll: F,
    before: Option<P>,
    after: Option<P>,
    result: Polled<Result<(), Error>>,
) -> bool where F: Fn(P) -> (P, Polled<Result<(), Error>>) {
    match before {
        None => after is None && (result matches Polled::Ready(Ok(_))),
        Some(pending) => exists|rest: P| #[trigger]
            call_ensures(poll, (pending,), (rest, result)) && (result is Pending ==> after == Some(
                rest,
            )) && (!(result is Pending) ==> after is None),
    }
}

proof fn lemma_asked<P, F>(
    poll: F,
    before: Option<P>,
    after: Option<P>,
    result: Polled<Result<(), Error>>,
) where F: Fn(P) -> (P, Polled<Result<(), Error>>)
    requires
        crate::llrt::streams::writable::polled_pending(poll, before, after, result),
    ensures
        asks_what_is_under_way(poll, before, after, result),
{
    if before is Some {
        let rest = choose|rest: P| #[trigger]
            crate::llrt::streams::readable::polls(poll, before.unwrap(), rest, result) && after == (
            if result is Pending {
                Some(rest)
            } else {
                None
            });
        assert(call_ensures(poll, (before.unwrap(),), (rest, result)));
    }
}

/// A writer has nothing under way at first. Polling it, also for flushing, asks what is under way;
/// polling it for readiness does so too, unless it is closing, which is an error.
pub proof fn law_writer_asks_what_is_under_way<P, F>(
    fresh: Writer<P>,
    writer: &mut Writer<P>,
    poll: F,
    result: Polled<Result<(), Error>>,
    flushing: &mut Writer<P>,
    flushed: Polled<Result<(), Error>>,
    readying: &mut Writer<P>,
    ready: Polled<Result<(), Error>>,
) where F: Fn(P) -> (P, Polled<Result<(), Error>>)
    requires
        call_ensures(Writer::<P>::new, (), fresh),
        call_ensures(Writer::<P>::poll_pending::<F>, (writer, poll), result),
        call_ensures(Writer::<P>::poll_flush::<F>, (flushing, poll), flushed),
        call_ensures(Writer::<P>::poll_ready::<F>, (readying, poll), ready),
    ensures
        fresh@.pending is None,
        !fresh@.closing,
        asks_what_is_under_way(poll, old(writer)@.pending, final(writer)@.pending, result),
        final(writer)@.closing == old(writer)@.closing,
        asks_what_is_under_way(poll, old(flushing)@.pending, final(flushing)@.pending, flushed),
        final(flushing)@.closing == old(flushing)@.closing,
        old(readying)@.closing ==> (ready matches Polled::Ready(Err(error)) && says_unexpected(
            error,
            "writer is closing"@,
        ))
            && final(readying)@ == old(readying)@,
        !old(readying)@.closing ==> asks_what_is_under_way(
            poll,
            old(readying)@.pending,
            final(readying)@.pending,
            ready,
        ) && !final(readying)@.closing,
{
    lemma_asked(poll, old(writer)@.pending, final(writer)@.pending, result);
    lemma_asked(poll, old(flushing)@.pending, final(flushing)@.pending, flushed);
    if !old(readying)@.closing {
        lemma_asked(poll, old(readying)@.pending, final(readying)@.pending, ready);
    }
}

/// A write is started exactly where nothing is under way, and is under way then.
pub proof fn law_one_write_is_under_way_at_a_time<P, N>(
    writer: &mut Writer<P>,
    start: N,
    outcome: Result<(), Error>,
) where N: FnOnce() -> P
    requires
        call_ensures(Writer::<P>::start_send::<N>, (writer, start), outcome),
    ensures
        outcome is Ok <==> old(writer)@.pending is None,
        outcome is Ok ==> (final(writer)@.pending matches Some(write) && call_ensures(
            start,
            (),
            write,
        )),
        outcome matches Err(error) ==> says_unexpected(error, "writer is not ready"@)
            && final(writer)@
            == old(writer)@,
        final(writer)@.closing == old(writer)@.closing,
{
}

/// A writer closes only behind what is under way: while that is pending or where it failed, nothing
/// else happens. Then it is closed once, and it is closed exactly where its close has ended.
pub proof fn law_writers_close_behind_their_writes<P, N, F>(
    writer: &mut Writer<P>,
    start: N,
    poll: F,
    result: Polled<Result<(), Error>>,
) where N: FnOnce() -> P, F: Fn(P) -> (P, Polled<Result<(), Error>>)
    requires
        call_ensures(Writer::<P>::poll_close::<N, F>, (writer, start, poll), result),
    ensures
        old(writer)@.closing ==> final(writer)@.closing,
        result matches Polled::Ready(Ok(_)) ==> final(writer)@.closing && final(
            writer)@.pending is None,
        old(writer)@.closing && old(writer)@.pending is None ==> (result matches Polled::Ready(
            Ok(_),
        )),
        old(writer)@.closing ==> asks_what_is_under_way(
            poll,
            old(writer)@.pending,
            final(writer)@.pending,
            result,
        ),
        !old(writer)@.closing && !final(writer)@.closing ==> asks_what_is_under_way(
            poll,
            old(writer)@.pending,
            final(writer)@.pending,
            result,
        ) && !(result matches Polled::Ready(Ok(_))),
        !old(writer)@.closing && final(writer)@.closing ==> asks_what_is_under_way(
            poll,
            old(writer)@.pending,
            None,
            Polled::Ready(Ok::<(), Error>(())),
        ) && exists|close: P| #[trigger]
            call_ensures(start, (), close) && asks_what_is_under_way(
                poll,
                Some(close),
                final(writer)@.pending,
                result,
            ),
{
    let before = old(writer)@;
    let after = final(writer)@;
    if crate::llrt::streams::writable::polled_pending(poll, before.pending, after.pending, result) {
        lemma_asked(poll, before.pending, after.pending, result);
    }
    if !before.closing && after.closing {
        lemma_asked(poll, before.pending, None, Polled::Ready(Ok::<(), Error>(())));
        let close = choose|close: P| #[trigger]
            call_ensures(start, (), close) && crate::llrt::streams::writable::polled_pending(
                poll,
                Some(close),
                after.pending,
                result,
            );
        lemma_asked(poll, Some(close), after.pending, result);
    }
}

/// The result of a read is an object exactly where its value is of the type of one.
pub proof fn law_read_results_are_objects_of_the_engine<'js>(
    value: rquickjs::Value<'js>,
    read: Result<rquickjs::Object<'js>, Error>,
)
    requires
        call_ensures(read_result, (value,), read),
    ensures
        read is Ok <==> is_object_type(type_of_value(value)),
        read matches Ok(object) ==> may_be_object(value, Some(object)),
        read matches Err(error) ==> says_conversion(error, "read() result is not an object"@),
{
}

/// A pull that does not advance leaves the source where it is, and one that does takes it. The end
/// of a pull leaves the source where it is, unless it brings a chunk to a stream that is not
/// cancelled.
pub proof fn law_only_pulls_that_advance_take_the_source<S, T>(
    stream: &mut HostReadableStream<S>,
    default_controller: bool,
    start: PullStart<S>,
    ending: &mut HostReadableStream<S>,
    source: S,
    given: Option<Result<T, Error>>,
    end: PullEnd<T>,
)
    requires
        call_ensures(HostReadableStream::<S>::start_pull, (stream, default_controller), start),
        call_ensures(HostReadableStream::<S>::end_pull::<T>, (ending, source, given), end),
    ensures
        start is Advance ==> final(stream)@.source is None,
        !(start is Advance) ==> final(stream)@.source == old(stream)@.source,
        start matches PullStart::Refuse(message) ==> message@ == "expected a default controller"@,
        final(ending)@.source == (if end is Enqueue {
            Some(source)
        } else {
            old(ending)@.source
        }),
        end is Enqueue <==> !old(ending)@.cancelled && (given matches Some(Ok(_))),
        final(ending)@.cancelled == old(ending)@.cancelled,
{
}

} // verus!
