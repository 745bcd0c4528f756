//! Transform stream interop.

use vstd::prelude::*;

use crate::errors::Error;
use crate::host::module::AdapterError;
use crate::sequences::reverse;
use crate::steps::{in_order, is_path, lemma_path_begins, lemma_path_goes_on};

verus! {

/// Whether an error throws the text of a host error.
pub open spec fn throws_text<E>(error: Error, thrown: AdapterError<E>) -> bool {
    thrown matches AdapterError::Throw(message) && error.reads_as(message@)
}

/// Passes on the outputs of a transform. Where the chunk could not be converted or the transform
/// failed, the guest is thrown the text of the error.
pub fn outputs<O, E>(transformed: Result<Vec<O>, Error>) -> (r: Result<Vec<O>, AdapterError<E>>)
    ensures
        match transformed {
            Ok(outputs) => r == Ok::<Vec<O>, AdapterError<E>>(outputs),
            Err(error) => r matches Err(thrown) && throws_text(error, thrown),
        },
{
    match transformed {
        Ok(outputs) => Ok(outputs),
        Err(error) => Err(AdapterError::Throw(error.text())),
    }
}

/// Whether converting an output and then handing it to the guest led from one state to another with
/// an outcome. One that cannot be converted is not handed over, and the guest is thrown the text of
/// the error.
pub open spec fn enqueued<O, V, E, W, F, G>(
    convert: F,
    enqueue: G,
    output: O,
    before: W,
    after: W,
    outcome: Result<(), AdapterError<E>>,
) -> bool where F: Fn(W, O) -> (W, Result<V, Error>), G: Fn(W, V) -> (W, Result<(), E>) {
    exists|between: W, converted: Result<V, Error>|
        #![trigger call_ensures(convert, (before, output), (between, converted))]
        call_ensures(convert, (before, output), (between, converted)) && match converted {
            Ok(value) => match outcome {
                Ok(_) => call_ensures(enqueue, (between, value), (after, Ok::<(), E>(()))),
                Err(AdapterError::Engine(cause)) => call_ensures(
                    enqueue,
                    (between, value),
                    (after, Err::<(), E>(cause)),
                ),
                Err(AdapterError::Throw(_)) => false,
            },
            Err(error) => after == between && (outcome matches Err(thrown) && throws_text(
                error,
                thrown,
            )),
        }
}

/// The outputs of a transform on their way to the guest, as steps.
pub open spec fn enqueuing<O, V, E, W, F, G>(convert: F, enqueue: G, outputs: Seq<O>) -> spec_fn(
    int,
    W,
    W,
    Result<(), AdapterError<E>>,
) -> bool where F: Fn(W, O) -> (W, Result<V, Error>), G: Fn(W, V) -> (W, Result<(), E>) {
    |i: int, before: W, after: W, outcome: Result<(), AdapterError<E>>|
        enqueued::<O, V, E, W, F, G>(convert, enqueue, outputs[i], before, after, outcome)
}

/// Hands the outputs of a transform to the guest, each converted first, in order until one is
/// rejected. There may be none, one or several.
pub fn enqueue_all<O, V, E, W, F, G>(outputs: Vec<O>, state: W, convert: F, enqueue: G) -> (r: (
    W,
    Result<(), AdapterError<E>>,
)) where F: Fn(W, O) -> (W, Result<V, Error>), G: Fn(W, V) -> (W, Result<(), E>)
    requires
        forall|state: W, output: O| call_requires(convert, (state, output)),
        forall|state: W, value: V| call_requires(enqueue, (state, value)),
    ensures
        in_order(
            enqueuing::<O, V, E, W, F, G>(convert, enqueue, outputs@),
            outputs@.len(),
            state,
            r.0,
            r.1,
        ),
{
    let ghost all = outputs@;
    let ghost step = enqueuing::<O, V, E, W, F, G>(convert, enqueue, all);
    let ghost mut states: Seq<W> = seq![state];
    proof {
        lemma_path_begins(step, state);
    }
    let mut pending = outputs;
    let total: usize = pending.len();
    let mut done: usize = 0;
    let mut current = state;
    reverse(&mut pending);
    while done < total
        invariant
            done <= total,
            total == all.len(),
            all == outputs@,
            pending@.len() == total - done,
            forall|i: int|
                0 <= i < pending@.len() ==> #[trigger] pending@[i] == all[total - 1 - i],
            forall|state: W, output: O| call_requires(convert, (state, output)),
            forall|state: W, value: V| call_requires(enqueue, (state, value)),
            step == enqueuing::<O, V, E, W, F, G>(convert, enqueue, all),
            is_path(step, state, states),
            states.len() == done + 1,
            states.last() == current,
        decreases total - done,
    {
        match pending.pop() {
            Some(output) => {
                assert(output == all[done as int]);
                let (between, converted) = convert(current, output);
                assert(call_ensures(convert, (states.last(), output), (between, converted)));
                match converted {
                    Ok(value) => {
                        let (next, handed) = enqueue(between, value);
                        match handed {
                            Ok(unit) => {
                                proof {
                                    assert(unit == ());
                                    assert(step(done as int, states.last(), next, Ok(())));
                                    lemma_path_goes_on(step, state, states, next);
                                    states = states.push(next);
                                }
                                current = next;
                            }
                            Err(cause) => {
                                let thrown = AdapterError::Engine(cause);
                                assert(step(done as int, states.last(), next, Err(thrown)));
                                return (next, Err(thrown));
                            }
                        }
                    }
                    Err(error) => {
                        let thrown = AdapterError::Throw(error.text());
                        assert(step(done as int, states.last(), between, Err(thrown)));
                        return (between, Err(thrown));
                    }
                }
            }
            None => {
                assert(false);
                return (current, Ok(()));
            }
        }
        done += 1;
    }
    (current, Ok(()))
}

} // verus!
