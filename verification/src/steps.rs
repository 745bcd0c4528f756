//! Steps that are taken one after another, each from the state that the one before it left.

use vstd::prelude::*;

verus! {

/// Whether states follow one another from a start on: the step of each index led from one state to
/// the next with success. A step is a relation between its index, the state before it, the state
/// after it and its outcome.
pub open spec fn is_path<W, E>(
    step: spec_fn(int, W, W, Result<(), E>) -> bool,
    start: W,
    states: Seq<W>,
) -> bool {
    &&& states.len() > 0
    &&& states[0] == start
    &&& forall|i: int|
        0 <= i < states.len() - 1 ==> step(i, #[trigger] states[i], states[i + 1], Ok(()))
}

/// Whether a number of steps were taken in order, from a start to an end, until one failed: each of
/// them began in the state that the one before it had left, and none came after the one that failed.
pub open spec fn in_order<W, E>(
    step: spec_fn(int, W, W, Result<(), E>) -> bool,
    count: nat,
    start: W,
    end: W,
    outcome: Result<(), E>,
) -> bool {
    exists|states: Seq<W>| #[trigger]
        is_path(step, start, states) && match outcome {
            Ok(_) => states.len() == count + 1 && states.last() == end,
            Err(error) => states.len() <= count && step(
                states.len() - 1,
                states.last(),
                end,
                Err(error),
            ),
        }
}

pub(crate) proof fn lemma_path_begins<W, E>(
    step: spec_fn(int, W, W, Result<(), E>) -> bool,
    start: W,
)
    ensures
        is_path(step, start, seq![start]),
{
}

pub(crate) proof fn lemma_path_goes_on<W, E>(
    step: spec_fn(int, W, W, Result<(), E>) -> bool,
    start: W,
    states: Seq<W>,
    next: W,
)
    requires
        is_path(step, start, states),
        step(states.len() - 1, states.last(), next, Ok(())),
    ensures
        is_path(step, start, states.push(next)),
{
    let longer = states.push(next);
    assert forall|i: int| 0 <= i < longer.len() - 1 implies step(
        i,
        #[trigger] longer[i],
        longer[i + 1],
        Ok(()),
    ) by {
        if i < states.len() - 1 {
            assert(longer[i] == states[i]);
            assert(longer[i + 1] == states[i + 1]);
        }
    }
}

} // verus!
