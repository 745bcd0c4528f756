//! Writable stream interop.

use vstd::prelude::*;

use crate::errors::Error;
use crate::llrt::streams::readable::{polls, Polled};

verus! {

/// A host sink exposed as a guest `WritableStream`. While a write is under way, the write has the
/// sink.
pub struct HostWritableStream<K> {
    sink: Option<K>,
}

impl<K> View for HostWritableStream<K> {
    type V = Option<K>;

    closed spec fn view(&self) -> Option<K> {
        self.sink
    }
}

/// Whether an error is that of a write without a sink.
pub open spec fn is_closed(error: Error) -> bool {
    error is Unexpected && error.details() == Some(
        ("write after the sink was closed"@, None::<Seq<char>>),
    )
}

/// The sink behind the start of a write, which takes it if there is a chunk to write.
pub open spec fn writing<K>(sink: Option<K>, converted: bool) -> Option<K> {
    if converted {
        None
    } else {
        sink
    }
}

/// The sink behind the end of a write, which gives it back only where the write succeeded.
pub open spec fn written<K>(sink: Option<K>, writer: K, sent: bool) -> Option<K> {
    if sent {
        Some(writer)
    } else {
        sink
    }
}

impl<K> HostWritableStream<K> {
    /// Creates a host writable stream from a chunk sink.
    pub fn from_sink(sink: K) -> (r: Self)
        ensures
            r@ == Some(sink),
    {
        HostWritableStream { sink: Some(sink) }
    }

    /// Starts the write of a converted chunk, which takes the sink. A chunk that could not be
    /// converted leaves it.
    pub fn start_write<T>(&mut self, chunk: Result<T, Error>) -> (r: Result<(T, K), Error>)
        ensures
            match chunk {
                Err(error) => r == Err::<(T, K), Error>(error),
                Ok(chunk) => match old(self)@ {
                    Some(sink) => r == Ok::<(T, K), Error>((chunk, sink)),
                    None => r matches Err(error) && is_closed(error),
                },
            },
            final(self)@ == writing(old(self)@, chunk is Ok),
    {
        let chunk = match chunk {
            Ok(chunk) => chunk,
            Err(error) => {
                return Err(error);
            }
        };
        match self.sink.take() {
            Some(sink) => Ok((chunk, sink)),
            None => Err(Error::unexpected("write after the sink was closed")),
        }
    }

    /// Ends a write, which gives the sink back only where it succeeded.
    pub fn end_write(&mut self, sink: K, sent: Result<(), Error>) -> (r: Result<(), Error>)
        ensures
            r == sent,
            final(self)@ == written(old(self)@, sink, sent is Ok),
    {
        match sent {
            Ok(unit) => {
                assert(unit == ());
                self.sink = Some(sink);
                Ok(())
            }
            Err(error) => Err(error),
        }
    }

    /// Takes the sink to close it.
    pub fn close(&mut self) -> (r: Option<K>)
        ensures
            r == old(self)@,
            final(self)@ is None,
    {
        self.sink.take()
    }

    /// Drops the sink without closing it.
    pub fn abort(&mut self)
        ensures
            final(self)@ is None,
    {
        self.sink = None;
    }
}

/// A writer for a guest writable stream, with the write or the close that is under way.
pub struct Writer<P> {
    pending: Option<P>,
    closing: bool,
}

/// What a writer stands for.
pub struct WriterView<P> {
    /// What is under way.
    pub pending: Option<P>,
    /// Whether the writer was asked to close.
    pub closing: bool,
}

impl<P> View for Writer<P> {
    type V = WriterView<P>;

    closed spec fn view(&self) -> WriterView<P> {
        WriterView { pending: self.pending, closing: self.closing }
    }
}

/// Whether a poll of what is under way gave a result and left the rest: nothing under way is ready,
/// and what has ended is under way no longer.
pub open spec fn polled_pending<P, F>(
    poll: F,
    before: Option<P>,
    after: Option<P>,
    result: Polled<Result<(), Error>>,
) -> bool where F: Fn(P) -> (P, Polled<Result<(), Error>>) {
    match before {
        None => after is None && result == Polled::Ready(Ok::<(), Error>(())),
        Some(pending) => exists|rest: P| #[trigger]
            polls(poll, pending, rest, result) && after == (if result is Pending {
                Some(rest)
            } else {
                None
            }),
    }
}

fn poll_once<P, F>(pending: Option<P>, poll: &F) -> (r: (Option<P>, Polled<Result<(), Error>>)) where
    F: Fn(P) -> (P, Polled<Result<(), Error>>),

    requires
        forall|future: P| call_requires(*poll, (future,)),
    ensures
        polled_pending(*poll, pending, r.0, r.1),
{
    match pending {
        Some(pending) => {
            let (rest, polled) = poll(pending);
            assert(polls(*poll, pending, rest, polled));
            match polled {
                Polled::Pending => (Some(rest), Polled::Pending),
                Polled::Ready(result) => (None, Polled::Ready(result)),
            }
        }
        None => (None, Polled::Ready(Ok(()))),
    }
}

/// Whether an error has a message of the library itself.
pub open spec fn is_unexpected(error: Error, message: Seq<char>) -> bool {
    error is Unexpected && error.details() == Some((message, None::<Seq<char>>))
}

impl<P> Writer<P> {
    /// Creates a writer with nothing under way.
    pub fn new() -> (r: Self)
        ensures
            r@ == (WriterView { pending: None::<P>, closing: false }),
    {
        Writer { pending: None, closing: false }
    }

    /// Polls what is under way.
    pub fn poll_pending<F>(&mut self, poll: F) -> (r: Polled<Result<(), Error>>) where
        F: Fn(P) -> (P, Polled<Result<(), Error>>),

        requires
            forall|future: P| call_requires(poll, (future,)),
        ensures
            polled_pending(poll, old(self)@.pending, final(self)@.pending, r),
            final(self)@.closing == old(self)@.closing,
    {
        let (pending, polled) = poll_once(self.pending.take(), &poll);
        self.pending = pending;
        polled
    }

    /// Polls whether a chunk can be sent. A closing writer takes no chunks.
    pub fn poll_ready<F>(&mut self, poll: F) -> (r: Polled<Result<(), Error>>) where
        F: Fn(P) -> (P, Polled<Result<(), Error>>),

        requires
            forall|future: P| call_requires(poll, (future,)),
        ensures
            old(self)@.closing ==> final(self)@ == old(self)@ && (r matches Polled::Ready(
                Err(error),
            ) && is_unexpected(error, "writer is closing"@)),
            !old(self)@.closing ==> polled_pending(
                poll,
                old(self)@.pending,
                final(self)@.pending,
                r,
            ) && !final(self)@.closing,
    {
        if self.closing {
            return Polled::Ready(Err(Error::unexpected("writer is closing")));
        }
        self.poll_pending(poll)
    }

    /// Starts a write. While something is under way, the writer is not ready.
    pub fn start_send<N>(&mut self, start: N) -> (r: Result<(), Error>) where N: FnOnce() -> P
        requires
            old(self)@.pending is None ==> call_requires(start, ()),
        ensures
            match old(self)@.pending {
                Some(_) => final(self)@ == old(self)@ && (r matches Err(error) && is_unexpected(
                    error,
                    "writer is not ready"@,
                )),
                None => r is Ok && final(self)@.closing == old(self)@.closing && (
                final(self)@.pending matches Some(write) && call_ensures(start, (), write)),
            },
    {
        if self.pending.is_some() {
            return Err(Error::unexpected("writer is not ready"));
        }
        self.pending = Some(start());
        Ok(())
    }

    /// Polls until everything that was sent is written.
    pub fn poll_flush<F>(&mut self, poll: F) -> (r: Polled<Result<(), Error>>) where
        F: Fn(P) -> (P, Polled<Result<(), Error>>),

        requires
            forall|future: P| call_requires(poll, (future,)),
        ensures
            polled_pending(poll, old(self)@.pending, final(self)@.pending, r),
            final(self)@.closing == old(self)@.closing,
    {
        self.poll_pending(poll)
    }

    /// Polls until the writer is closed. What is under way ends first; then the close is started,
    /// once.
    pub fn poll_close<N, F>(&mut self, start: N, poll: F) -> (r: Polled<Result<(), Error>>) where
        N: FnOnce() -> P,
        F: Fn(P) -> (P, Polled<Result<(), Error>>),

        requires
            call_requires(start, ()),
            forall|future: P| call_requires(poll, (future,)),
        ensures
            closes(start, poll, old(self)@, final(self)@, r),
    {
        let (pending, first) = poll_once(self.pending.take(), &poll);
        self.pending = pending;
        match first {
            Polled::Pending => {
                return Polled::Pending;
            }
            Polled::Ready(Err(error)) => {
                return Polled::Ready(Err(error));
            }
            Polled::Ready(Ok(unit)) => {
                assert(unit == ());
            }
        }
        if self.closing {
            return Polled::Ready(Ok(()));
        }
        self.closing = true;
        let (pending, polled) = poll_once(Some(start()), &poll);
        self.pending = pending;
        polled
    }
}

/// Whether a poll for closing went as it must. What was under way is polled first; until it has
/// succeeded nothing else happens. Then a writer that was closing before is closed, and any other
/// starts its close and polls it.
pub open spec fn closes<P, N, F>(
    start: N,
    poll: F,
    before: WriterView<P>,
    after: WriterView<P>,
    result: Polled<Result<(), Error>>,
) -> bool where N: FnOnce() -> P, F: Fn(P) -> (P, Polled<Result<(), Error>>) {
    ||| {
        &&& !(result matches Polled::Ready(Ok(_)))
        &&& polled_pending(poll, before.pending, after.pending, result)
        &&& after.closing == before.closing
    }
    ||| {
        &&& before.closing
        &&& result == Polled::Ready(Ok::<(), Error>(()))
        &&& after == (WriterView { pending: None::<P>, closing: true })
        &&& polled_pending(poll, before.pending, None, result)
    }
    ||| {
        &&& !before.closing
        &&& after.closing
        &&& polled_pending(poll, before.pending, None, Polled::Ready(Ok::<(), Error>(())))
        &&& exists|close: P| #[trigger]
            call_ensures(start, (), close) && polled_pending(
                poll,
                Some(close),
                after.pending,
                result,
            )
    }
}

/// A write that succeeds leaves the stream with its sink and a write that fails leaves it without
/// one. A stream without a sink, such as one that was closed or aborted, gets none from a refused
/// write.
pub proof fn law_only_successful_writes_keep_the_sink<K>(sink: K)
    ensures
        written(writing(Some(sink), true), sink, true) == Some(sink),
        written(writing(Some(sink), true), sink, false) is None,
        writing(Some(sink), false) == Some(sink),
        writing(None::<K>, true) is None,
        writing(None::<K>, false) is None,
{
}

/// A writer that is closing stays so. Once its close has ended, polling for closing again succeeds
/// at once and changes nothing.
pub proof fn law_closing_is_final<P, N, F>(
    start: N,
    poll: F,
    before: WriterView<P>,
    after: WriterView<P>,
    result: Polled<Result<(), Error>>,
) where N: FnOnce() -> P, F: Fn(P) -> (P, Polled<Result<(), Error>>)
    requires
        closes(start, poll, before, after, result),
        before.closing,
    ensures
        after.closing,
        before.pending is None ==> after == before && result == Polled::Ready(
            Ok::<(), Error>(()),
        ),
{
}

/// A poll for closing reports success only where nothing is under way any more and the writer is
/// closing.
pub proof fn law_closed_writer_has_nothing_under_way<P, N, F>(
    start: N,
    poll: F,
    before: WriterView<P>,
    after: WriterView<P>,
) where N: FnOnce() -> P, F: Fn(P) -> (P, Polled<Result<(), Error>>)
    requires
        closes(start, poll, before, after, Polled::Ready(Ok::<(), Error>(()))),
    ensures
        after.closing,
        after.pending is None,
{
}

} // verus!
