//! Readable stream interop.

use vstd::prelude::*;

use crate::errors::Error;
use crate::handle::kind::{find_object, may_be_object, HandleKind};
use crate::marshal::type_of_value;

verus! {

/// What a poll gives.
pub enum Polled<T> {
    /// Nothing yet.
    Pending,
    /// A result.
    Ready(T),
}

/// A host source exposed as a guest `ReadableStream`. While a pull is under way, the pull has the
/// source.
pub struct HostReadableStream<S> {
    source: Option<S>,
    cancelled: bool,
}

/// What a host source stands for.
pub struct SourceView<S> {
    /// The source, unless a pull has it or it has ended.
    pub source: Option<S>,
    /// Whether the guest has cancelled the stream.
    pub cancelled: bool,
}

impl<S> View for HostReadableStream<S> {
    type V = SourceView<S>;

    closed spec fn view(&self) -> SourceView<S> {
        SourceView { source: self.source, cancelled: self.cancelled }
    }
}

/// What a pull does first.
pub enum PullStart<S> {
    /// Throw a type error with a message: the controller is not a default controller.
    Refuse(&'static str),
    /// Close the stream.
    Close,
    /// Advance the source.
    Advance(S),
}

/// What a pull does with what the source gave.
pub enum PullEnd<T> {
    /// Close the stream.
    Close,
    /// Hand a chunk to the guest.
    Enqueue(T),
    /// Fail the stream with a message.
    Fail(String),
}

/// Whether a pull ends as it must: a cancelled stream is closed whatever the source gave, a chunk is
/// handed on, an error fails the stream with its text, and the end closes it.
pub open spec fn ends_pull<T>(
    cancelled: bool,
    next: Option<Result<T, Error>>,
    end: PullEnd<T>,
) -> bool {
    if cancelled {
        end is Close
    } else {
        match next {
            Some(Ok(chunk)) => end == PullEnd::Enqueue(chunk),
            Some(Err(error)) => end matches PullEnd::Fail(message) && error.reads_as(message@),
            None => end is Close,
        }
    }
}

impl<S> SourceView<S> {
    /// The source behind the start of a pull, which takes it.
    pub open spec fn pulling(self, default_controller: bool) -> Self {
        if default_controller && !self.cancelled {
            SourceView { source: None, ..self }
        } else {
            self
        }
    }

    /// The source behind the end of a pull, which gives it back only with a chunk.
    pub open spec fn pulled<T>(self, stream: S, next: Option<Result<T, Error>>) -> Self {
        if !self.cancelled && (next matches Some(Ok(_))) {
            SourceView { source: Some(stream), ..self }
        } else {
            self
        }
    }
}

impl<S> HostReadableStream<S> {
    /// Creates a host readable stream from a chunk source.
    pub fn from_stream(source: S) -> (r: Self)
        ensures
            r@ == (SourceView { source: Some(source), cancelled: false }),
    {
        HostReadableStream { source: Some(source), cancelled: false }
    }

    /// Starts a pull.
    pub fn start_pull(&mut self, default_controller: bool) -> (r: PullStart<S>)
        ensures
            match r {
                PullStart::Refuse(message) => !default_controller && message@
                    == "expected a default controller"@,
                PullStart::Close => default_controller && (old(self)@.cancelled
                    || old(self)@.source is None),
                PullStart::Advance(stream) => default_controller && !old(self)@.cancelled
                    && old(self)@.source == Some(stream),
            },
            final(self)@ == old(self)@.pulling(default_controller),
    {
        if !default_controller {
            return PullStart::Refuse("expected a default controller");
        }
        if self.cancelled {
            return PullStart::Close;
        }
        match self.source.take() {
            Some(stream) => PullStart::Advance(stream),
            None => PullStart::Close,
        }
    }

    /// Ends a pull with what the source gave.
    pub fn end_pull<T>(&mut self, stream: S, next: Option<Result<T, Error>>) -> (r: PullEnd<T>)
        ensures
            ends_pull(old(self)@.cancelled, next, r),
            final(self)@ == old(self)@.pulled(stream, next),
    {
        if self.cancelled {
            return PullEnd::Close;
        }
        match next {
            Some(Ok(chunk)) => {
                self.source = Some(stream);
                PullEnd::Enqueue(chunk)
            }
            Some(Err(error)) => PullEnd::Fail(error.text()),
            None => PullEnd::Close,
        }
    }

    /// Cancels the stream, which drops the source.
    pub fn cancel(&mut self)
        ensures
            final(self)@ == (SourceView::<S> { source: None, cancelled: true }),
    {
        self.cancelled = true;
        self.source = None;
    }
}

/// A cancelled stream stays cancelled and never has a source again, also where a pull was under way
/// when it was cancelled.
pub proof fn law_cancellation_is_final<S, T>(
    state: SourceView<S>,
    default_controller: bool,
    stream: S,
    next: Option<Result<T, Error>>,
)
    requires
        state.cancelled,
        state.source is None,
    ensures
        state.pulling(default_controller) == state,
        state.pulled(stream, next) == state,
{
}

/// A pull that gives a chunk leaves the stream with the source that it advanced, and any other pull
/// leaves it without one.
pub proof fn law_each_pull_advances_the_source_once<S, T>(
    state: SourceView<S>,
    stream: S,
    next: Option<Result<T, Error>>,
)
    requires
        !state.cancelled,
    ensures
        state.pulling(true).pulled(stream, next).source == (if next matches Some(Ok(_)) {
            Some(stream)
        } else {
            None
        }),
        !state.pulling(true).pulled(stream, next).cancelled,
{
}

/// Passes on the object that a read gave. Anything else is an error.
pub fn expect_result<O>(found: Option<O>) -> (r: Result<O, Error>)
    ensures
        match found {
            Some(result) => r == Ok::<O, Error>(result),
            None => r matches Err(error) && error is Conversion && error.details() == Some(
                ("read() result is not an object"@, None::<Seq<char>>),
            ),
        },
{
    match found {
        Some(result) => Ok(result),
        None => Err(Error::conversion("read() result is not an object")),
    }
}

/// Converts the guest value that a read gave into an object. Any other value is an error.
pub fn read_result<'js>(value: rquickjs::Value<'js>) -> (r: Result<rquickjs::Object<'js>, Error>)
    ensures
        r is Ok <==> HandleKind::Object.covers(type_of_value(value)),
        r matches Ok(object) ==> may_be_object(value, Some(object)),
        r matches Err(error) ==> error is Conversion && error.details() == Some(
            ("read() result is not an object"@, None::<Seq<char>>),
        ),
{
    expect_result(find_object(value))
}

/// Reads a chunk out of the result of a read: there is none where the stream is done, and then the
/// chunk is not looked at.
pub fn read_outcome<O, T, D, F>(result: Result<O, Error>, done: D, chunk: F) -> (r: Result<
    Option<T>,
    Error,
>) where D: Fn(&O) -> Result<bool, Error>, F: Fn(&O) -> Result<T, Error>
    requires
        forall|object: &O| call_requires(done, (object,)),
        forall|object: &O| #[trigger]
            call_ensures(done, (object,), Ok::<bool, Error>(false)) ==> call_requires(
                chunk,
                (object,),
            ),
    ensures
        match result {
            Err(error) => r == Err::<Option<T>, Error>(error),
            Ok(object) => match r {
                Ok(None) => call_ensures(done, (&object,), Ok::<bool, Error>(true)),
                Ok(Some(item)) => call_ensures(done, (&object,), Ok::<bool, Error>(false))
                    && call_ensures(chunk, (&object,), Ok::<T, Error>(item)),
                Err(error) => call_ensures(done, (&object,), Err::<bool, Error>(error)) || (
                call_ensures(done, (&object,), Ok::<bool, Error>(false)) && call_ensures(
                    chunk,
                    (&object,),
                    Err::<T, Error>(error),
                )),
            },
        },
{
    let object = match result {
        Ok(object) => object,
        Err(error) => {
            return Err(error);
        }
    };
    let is_done = done(&object);
    match is_done {
        Ok(true) => Ok(None),
        Ok(false) => {
            let read = chunk(&object);
            match read {
                Ok(item) => Ok(Some(item)),
                Err(error) => Err(error),
            }
        }
        Err(error) => Err(error),
    }
}

/// The chunks of a stream that were read so far.
pub struct Collector<T> {
    chunks: Vec<T>,
}

/// Whether more is to be read, or what came of it.
pub enum Collected<T> {
    /// Read on.
    More(Collector<T>),
    /// The stream is done: its chunks.
    Done(Vec<T>),
    /// A read failed.
    Failed(Error),
}

impl<T> View for Collector<T> {
    type V = Seq<T>;

    closed spec fn view(&self) -> Seq<T> {
        self.chunks@
    }
}

impl<T> Collector<T> {
    /// Creates a collector without chunks.
    pub fn new() -> (r: Self)
        ensures
            r@ == Seq::<T>::empty(),
    {
        Collector { chunks: Vec::new() }
    }

    /// Takes the outcome of a read.
    pub fn take(self, read: Result<Option<T>, Error>) -> (r: Collected<T>)
        ensures
            match read {
                Ok(Some(chunk)) => r matches Collected::More(collector) && collector@ == self@.push(
                    chunk,
                ),
                Ok(None) => r matches Collected::Done(chunks) && chunks@ == self@,
                Err(error) => r == Collected::<T>::Failed(error),
            },
    {
        match read {
            Ok(Some(chunk)) => {
                let mut chunks = self.chunks;
                chunks.push(chunk);
                Collected::More(Collector { chunks })
            }
            Ok(None) => Collected::Done(self.chunks),
            Err(error) => Collected::Failed(error),
        }
    }
}

/// Splits what a stream gave for its branches. Anything but two branches is an error.
pub fn branches<T>(found: Vec<T>) -> (r: Result<(T, T), Error>)
    ensures
        found@.len() == 2 ==> r == Ok::<(T, T), Error>((found@[0], found@[1])),
        found@.len() != 2 ==> (r matches Err(error) && error is Conversion && error.details()
            == Some(("tee() did not return two streams"@, None::<Seq<char>>))),
{
    let mut found = found;
    if found.len() != 2 {
        return Err(Error::conversion("tee() did not return two streams"));
    }
    match (found.pop(), found.pop()) {
        (Some(second), Some(first)) => Ok((first, second)),
        _ => Err(Error::conversion("tee() did not return two streams")),
    }
}

/// A reader for a guest readable stream, with the read that is under way.
pub struct Reader<P> {
    pending: Option<P>,
}

impl<P> View for Reader<P> {
    type V = Option<P>;

    closed spec fn view(&self) -> Option<P> {
        self.pending
    }
}

/// Whether polling a future gave a result and left the future behind.
pub open spec fn polls<P, T, F>(poll: F, before: P, after: P, result: Polled<T>) -> bool where
    F: Fn(P) -> (P, Polled<T>),
 {
    call_ensures(poll, (before,), (after, result))
}

/// What a poll of a read means for the stream.
pub open spec fn next_of<T>(polled: Polled<Result<Option<T>, Error>>) -> Polled<
    Option<Result<T, Error>>,
> {
    match polled {
        Polled::Pending => Polled::Pending,
        Polled::Ready(Ok(None)) => Polled::Ready(None),
        Polled::Ready(Ok(Some(chunk))) => Polled::Ready(Some(Ok(chunk))),
        Polled::Ready(Err(error)) => Polled::Ready(Some(Err(error))),
    }
}

/// Whether a poll for the next chunk polled a read, gave what the read gave, and kept the read
/// exactly where it has not ended.
pub open spec fn polled_next<P, T, F>(
    poll: F,
    read: P,
    result: Polled<Option<Result<T, Error>>>,
    kept: Option<P>,
) -> bool where F: Fn(P) -> (P, Polled<Result<Option<T>, Error>>) {
    exists|after: P, polled: Polled<Result<Option<T>, Error>>| #[trigger]
        polls(poll, read, after, polled) && result == next_of(polled) && kept == (
        if polled is Pending {
            Some(after)
        } else {
            None
        })
}

impl<P> Reader<P> {
    /// Creates a reader without a read under way.
    pub fn new() -> (r: Self)
        ensures
            r@ == None::<P>,
    {
        Reader { pending: None }
    }

    /// Polls for the next chunk. Where no read is under way one is started, and a read that has
    /// ended is under way no longer.
    pub fn poll_next<T, N, F>(&mut self, start: N, poll: F) -> (r: Polled<
        Option<Result<T, Error>>,
    >) where N: FnOnce() -> P, F: Fn(P) -> (P, Polled<Result<Option<T>, Error>>)
        requires
            call_requires(start, ()),
            forall|future: P| call_requires(poll, (future,)),
        ensures
            match old(self)@ {
                Some(read) => polled_next(poll, read, r, final(self)@),
                None => exists|read: P|
                    #![trigger call_ensures(start, (), read)]
                    call_ensures(start, (), read) && polled_next(poll, read, r, final(self)@),
            },
    {
        let read = match self.pending.take() {
            Some(read) => read,
            None => start(),
        };
        let (rest, polled) = poll(read);
        assert(polls(poll, read, rest, polled));
        match polled {
            Polled::Pending => {
                self.pending = Some(rest);
                Polled::Pending
            }
            Polled::Ready(Ok(None)) => Polled::Ready(None),
            Polled::Ready(Ok(Some(chunk))) => Polled::Ready(Some(Ok(chunk))),
            Polled::Ready(Err(error)) => Polled::Ready(Some(Err(error))),
        }
    }
}

} // verus!
