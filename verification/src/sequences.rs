//! Operations on vectors of values that cannot be copied.

use vstd::prelude::*;

verus! {

/// Reverses a vector in place.
pub fn reverse<T>(values: &mut Vec<T>)
    ensures
        final(values)@.len() == old(values)@.len(),
        forall|i: int|
            0 <= i < old(values)@.len() ==> #[trigger] final(values)@[i] == old(values)@[old(
                values,
            )@.len() - 1 - i],
{
    let ghost all = values@;
    let mut source: Vec<T> = Vec::new();
    std::mem::swap(&mut source, values);
    while source.len() > 0
        invariant
            source@.len() + values@.len() == all.len(),
            forall|i: int| 0 <= i < source@.len() ==> #[trigger] source@[i] == all[i],
            forall|i: int| 0 <= i < values@.len() ==> #[trigger] values@[i] == all[all.len() - 1 - i],
        decreases source@.len(),
    {
        match source.pop() {
            Some(value) => values.push(value),
            None => {}
        }
    }
}

} // verus!
