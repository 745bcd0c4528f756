use std::cell::RefCell;

use guestjs::errors::Error;
use guestjs::host::module::AdapterError;
use guestjs::llrt::streams::readable::{
    branches, expect_result, read_outcome, read_result, Collected, Collector, PullEnd, PullStart,
};
use guestjs::llrt::streams::transform::{enqueue_all, outputs};
use guestjs::llrt::streams::{HostReadableStream, HostWritableStream, Polled, Reader, Writer};
use rquickjs::{Context, Ctx, Runtime, Value};

fn advanced<S>(stream: &mut HostReadableStream<S>) -> S {
    match stream.start_pull(true) {
        PullStart::Advance(source) => source,
        _ => panic!("expected a source"),
    }
}

#[test]
fn each_pull_advances_the_source_once() {
    let mut stream = HostReadableStream::from_stream(vec![3, 2, 1]);
    let mut chunks = Vec::new();

    loop {
        let mut source = advanced(&mut stream);
        assert!(matches!(stream.start_pull(true), PullStart::Close));
        let next = source.pop().map(Ok);
        match stream.end_pull(source, next) {
            PullEnd::Enqueue(chunk) => chunks.push(chunk),
            PullEnd::Close => break,
            PullEnd::Fail(message) => panic!("{message}"),
        }
    }
    assert_eq!(chunks, vec![1, 2, 3]);
    assert!(matches!(stream.start_pull(true), PullStart::Close));
}

#[test]
fn a_failing_source_fails_the_stream() {
    let mut stream = HostReadableStream::from_stream("source");
    let source = advanced(&mut stream);

    assert!(matches!(
        stream.end_pull::<u8>(source, Some(Err(Error::unexpected("gone")))),
        PullEnd::Fail(message) if message == "unexpected error: gone"
    ));
    assert!(matches!(stream.start_pull(true), PullStart::Close));
}

#[test]
fn cancelling_drops_the_source_also_during_a_pull() {
    let mut idle = HostReadableStream::from_stream("source");
    idle.cancel();
    assert!(matches!(idle.start_pull(true), PullStart::Close));

    let mut pulled = HostReadableStream::from_stream("source");
    let source = advanced(&mut pulled);
    pulled.cancel();
    assert!(matches!(pulled.end_pull(source, Some(Ok(1))), PullEnd::Close));
    assert!(matches!(pulled.start_pull(true), PullStart::Close));
}

#[test]
fn only_a_default_controller_is_served() {
    let mut stream = HostReadableStream::from_stream("source");

    assert!(matches!(
        stream.start_pull(false),
        PullStart::Refuse("expected a default controller"),
    ));
    assert_eq!(advanced(&mut stream), "source");
}

#[test]
fn a_read_gives_a_chunk_or_the_end() {
    let read = |result: Result<(bool, i32), Error>| {
        read_outcome(result, |object: &(bool, i32)| Ok(object.0), |object: &(bool, i32)| {
            if object.1 < 0 {
                Err(Error::conversion("chunk"))
            } else {
                Ok(object.1)
            }
        })
    };

    assert_eq!(read(Ok((false, 5))).unwrap(), Some(5));
    assert_eq!(read(Ok((true, -5))).unwrap(), None);
    assert_eq!(read(Ok((false, -5))).unwrap_err().text(), "conversion error: chunk");
    assert_eq!(
        read(expect_result(None)).unwrap_err().text(),
        "conversion error: read() result is not an object",
    );
    assert_eq!(expect_result(Some(1)).unwrap(), 1);
}

#[test]
fn a_read_result_is_an_object() {
    let runtime = Runtime::new().unwrap();
    let context = Context::full(&runtime).unwrap();

    context.with(|ctx: Ctx<'_>| {
        let object = read_result(ctx.eval::<Value, _>("({ done: true })").unwrap()).unwrap();
        assert!(object.get::<_, bool>("done").unwrap());
        assert_eq!(
            read_result(ctx.eval::<Value, _>("1").unwrap()).unwrap_err().text(),
            "conversion error: read() result is not an object",
        );
    });
}

#[test]
fn chunks_are_collected_until_the_end() {
    let mut reads = vec![Ok(None), Ok(Some(2)), Ok(Some(1))];
    let mut collector = Collector::new();

    let chunks = loop {
        match collector.take(reads.pop().unwrap()) {
            Collected::More(more) => collector = more,
            Collected::Done(chunks) => break chunks,
            Collected::Failed(error) => panic!("{error:?}"),
        }
    };
    assert_eq!(chunks, vec![1, 2]);
    assert!(matches!(
        Collector::<u8>::new().take(Err(Error::timeout())),
        Collected::Failed(Error::Timeout),
    ));
}

#[test]
fn a_stream_has_two_branches() {
    assert_eq!(branches(vec!["left", "right"]).unwrap(), ("left", "right"));
    for wrong in [vec![], vec![1], vec![1, 2, 3]] {
        assert_eq!(
            branches(wrong).unwrap_err().text(),
            "conversion error: tee() did not return two streams",
        );
    }
}

fn pending(future: u8) -> (u8, Polled<Result<Option<i32>, Error>>) {
    (future + 1, Polled::Pending)
}

#[test]
fn a_reader_keeps_a_read_until_it_ends() {
    let mut reader = Reader::new();

    assert!(matches!(reader.poll_next(|| 1, pending), Polled::Pending));
    assert!(matches!(
        reader.poll_next(|| panic!("started twice"), |future: u8| {
            (future, Polled::Ready(Ok(Some(future as i32 * 10))))
        }),
        Polled::Ready(Some(Ok(20))),
    ));
    assert!(matches!(
        reader.poll_next(|| 7, |future: u8| (future, Polled::Ready(Ok(None::<i32>)))),
        Polled::Ready(None),
    ));
    assert!(matches!(
        reader.poll_next(|| 7, |future: u8| {
            (future, Polled::Ready(Err::<Option<i32>, _>(Error::cancelled())))
        }),
        Polled::Ready(Some(Err(Error::Cancelled))),
    ));
}

fn waits(future: u8) -> (u8, Polled<Result<(), Error>>) {
    (future + 1, Polled::Pending)
}

fn ends(future: u8) -> (u8, Polled<Result<(), Error>>) {
    (future, Polled::Ready(Ok(())))
}

fn fails(future: u8) -> (u8, Polled<Result<(), Error>>) {
    (future, Polled::Ready(Err(Error::engine("write"))))
}

#[test]
fn a_writer_writes_one_chunk_at_a_time() {
    let mut writer = Writer::new();

    assert!(matches!(writer.poll_ready(waits), Polled::Ready(Ok(()))));
    writer.start_send(|| 1).unwrap();
    assert_eq!(
        writer.start_send(|| 2).unwrap_err().text(),
        "unexpected error: writer is not ready",
    );
    assert!(matches!(writer.poll_ready(waits), Polled::Pending));
    assert!(matches!(writer.poll_flush(ends), Polled::Ready(Ok(()))));
    writer.start_send(|| 3).unwrap();
    assert!(matches!(
        writer.poll_pending(fails),
        Polled::Ready(Err(Error::Engine { .. })),
    ));
    assert!(matches!(writer.poll_flush(waits), Polled::Ready(Ok(()))));
}

#[test]
fn a_writer_closes_behind_its_last_write_and_once() {
    let mut writer = Writer::new();
    writer.start_send(|| 1).unwrap();

    assert!(matches!(
        writer.poll_close(|| panic!("closed too early"), waits),
        Polled::Pending,
    ));
    assert!(matches!(writer.poll_ready(waits), Polled::Pending));
    let polled = RefCell::new(Vec::new());
    assert!(matches!(
        writer.poll_close(|| 50, |future: u8| {
            polled.borrow_mut().push(future);
            if future == 50 {
                (future + 1, Polled::Pending)
            } else {
                (future, Polled::Ready(Ok(())))
            }
        }),
        Polled::Pending,
    ));
    assert_eq!(*polled.borrow(), vec![3, 50]);
    assert!(matches!(
        writer.poll_ready(waits),
        Polled::Ready(Err(Error::Unexpected { message, .. })) if message == "writer is closing"
    ));
    assert!(matches!(
        writer.poll_close(|| panic!("closed twice"), ends),
        Polled::Ready(Ok(())),
    ));
    assert!(matches!(
        writer.poll_close(|| panic!("closed twice"), |_: u8| panic!("polled again")),
        Polled::Ready(Ok(())),
    ));
}

#[test]
fn a_failed_write_is_reported_before_closing() {
    let mut writer = Writer::new();
    writer.start_send(|| 1).unwrap();

    assert!(matches!(
        writer.poll_close(|| panic!("closed"), fails),
        Polled::Ready(Err(Error::Engine { .. })),
    ));
    assert!(matches!(writer.poll_ready(ends), Polled::Ready(Ok(()))));
}

#[test]
fn a_sink_is_kept_by_successful_writes_only() {
    let mut stream = HostWritableStream::from_sink("sink");

    let (chunk, sink) = stream.start_write(Ok(1)).unwrap();
    assert_eq!((chunk, sink), (1, "sink"));
    assert_eq!(
        stream.start_write(Ok(2)).unwrap_err().text(),
        "unexpected error: write after the sink was closed",
    );
    stream.end_write(sink, Ok(())).unwrap();

    assert_eq!(
        stream.start_write(Err::<u8, _>(Error::conversion("chunk"))).unwrap_err().text(),
        "conversion error: chunk",
    );
    let (_, sink) = stream.start_write(Ok(3)).unwrap();
    assert!(stream.end_write(sink, Err(Error::unexpected("full"))).is_err());
    assert!(stream.start_write(Ok(4)).is_err());
}

#[test]
fn closing_takes_the_sink_and_aborting_drops_it() {
    let mut closed = HostWritableStream::from_sink("sink");
    assert_eq!(closed.close(), Some("sink"));
    assert_eq!(closed.close(), None);
    assert!(closed.start_write(Ok(1)).is_err());

    let mut aborted = HostWritableStream::from_sink("sink");
    aborted.abort();
    assert_eq!(aborted.close(), None);
}

#[test]
fn outputs_are_enqueued_in_order() {
    let enqueue = |mut enqueued: Vec<String>, value: String| {
        if value == "stop" {
            return (enqueued, Err("closed"));
        }
        enqueued.push(value);
        (enqueued, Ok(()))
    };
    let convert = |enqueued: Vec<String>, output: &'static str| {
        if output.is_empty() {
            (enqueued, Err(Error::conversion("empty")))
        } else {
            (enqueued, Ok(output.to_owned()))
        }
    };

    let (enqueued, outcome) = enqueue_all(vec![], Vec::new(), convert, enqueue);
    assert!(outcome.is_ok() && enqueued.is_empty());

    let (enqueued, outcome) = enqueue_all(vec!["a", "b"], enqueued, convert, enqueue);
    assert!(outcome.is_ok());
    assert_eq!(enqueued, vec!["a", "b"]);

    let (enqueued, outcome) = enqueue_all(vec!["c", "stop", "d"], enqueued, convert, enqueue);
    assert!(matches!(outcome, Err(AdapterError::Engine("closed"))));
    assert_eq!(enqueued, vec!["a", "b", "c"]);

    let (enqueued, outcome) = enqueue_all(vec!["e", "", "f"], enqueued, convert, enqueue);
    assert!(matches!(
        outcome,
        Err(AdapterError::Throw(message)) if message == "conversion error: empty"
    ));
    assert_eq!(enqueued, vec!["a", "b", "c", "e"]);
}

#[test]
fn a_failed_transform_is_thrown() {
    assert!(matches!(outputs::<_, ()>(Ok(vec![1, 2])), Ok(list) if list == vec![1, 2]));
    assert!(matches!(
        outputs::<u8, ()>(Err(Error::unexpected("map"))),
        Err(AdapterError::Throw(message)) if message == "unexpected error: map"
    ));
}
