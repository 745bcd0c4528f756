//! The arguments of host callables.

use vstd::prelude::*;

use crate::errors::Error;
use crate::steps::{in_order, is_path, lemma_path_begins, lemma_path_goes_on};
use crate::text::{decimal, decimal_text, joined};

verus! {

/// The text of the error of an argument that is not there.
pub open spec fn missing(index: usize) -> Seq<char> {
    "missing host argument at index "@ + decimal(index as nat)
}

/// Whether an error is that of an argument that is not there.
pub open spec fn is_missing(error: Error, index: usize) -> bool {
    error is Conversion && error.details() == Some((missing(index), None::<Seq<char>>))
}

/// Arguments passed from guest code into a host callable.
pub struct Args<V> {
    values: Vec<V>,
}

impl<V> View for Args<V> {
    type V = Seq<V>;

    closed spec fn view(&self) -> Seq<V> {
        self.values@
    }
}

/// Whether converting an argument gave a result.
pub open spec fn gave<V, T, F>(convert: F, value: V, result: Result<T, Error>) -> bool where
    F: Fn(&V) -> Result<T, Error>,
 {
    call_ensures(convert, (&value,), result)
}

impl<V> Args<V> {
    /// Creates arguments from guest values.
    pub fn new(values: Vec<V>) -> (r: Self)
        ensures
            r@ == values@,
    {
        Args { values }
    }

    /// Returns the number of arguments.
    pub fn len(&self) -> (r: usize)
        ensures
            r == self@.len(),
    {
        self.values.len()
    }

    /// Returns whether there are no arguments.
    pub fn is_empty(&self) -> (r: bool)
        ensures
            r == (self@.len() == 0),
    {
        self.values.len() == 0
    }

    /// Returns a converted argument. One that is not there is an error.
    pub fn get<T, F>(&self, index: usize, convert: F) -> (r: Result<T, Error>) where
        F: Fn(&V) -> Result<T, Error>,

        requires
            forall|value: &V| call_requires(convert, (value,)),
        ensures
            index < self@.len() ==> gave(convert, self@[index as int], r),
            index >= self@.len() ==> (r matches Err(error) && is_missing(error, index)),
    {
        let value = match self.required(index) {
            Ok(value) => value,
            Err(error) => {
                return Err(error);
            }
        };
        convert(value)
    }

    /// Returns a converted argument, or none where it is not there.
    pub fn get_opt<T, F>(&self, index: usize, convert: F) -> (r: Result<Option<T>, Error>) where
        F: Fn(&V) -> Result<T, Error>,

        requires
            forall|value: &V| call_requires(convert, (value,)),
        ensures
            index < self@.len() ==> match r {
                Ok(Some(value)) => gave(convert, self@[index as int], Ok::<T, Error>(value)),
                Ok(None) => false,
                Err(error) => gave(convert, self@[index as int], Err::<T, Error>(error)),
            },
            index >= self@.len() ==> r == Ok::<Option<T>, Error>(None),
    {
        if index < self.values.len() {
            let converted = convert(&self.values[index]);
            assert(gave(convert, self@[index as int], converted));
            match converted {
                Ok(value) => Ok(Some(value)),
                Err(error) => Err(error),
            }
        } else {
            Ok(None)
        }
    }

    /// Returns an argument converted for use beyond the call. One that is not there is an error.
    pub fn get_owned<T, F>(&self, index: usize, convert: F) -> (r: Result<T, Error>) where
        F: Fn(&V) -> Result<T, Error>,

        requires
            forall|value: &V| call_requires(convert, (value,)),
        ensures
            index < self@.len() ==> gave(convert, self@[index as int], r),
            index >= self@.len() ==> (r matches Err(error) && is_missing(error, index)),
    {
        self.get(index, convert)
    }

    /// Returns a shared borrow of an argument. One that is not there is an error.
    pub fn get_borrow<T, F>(&self, index: usize, convert: F) -> (r: Result<T, Error>) where
        F: Fn(&V) -> Result<T, Error>,

        requires
            forall|value: &V| call_requires(convert, (value,)),
        ensures
            index < self@.len() ==> gave(convert, self@[index as int], r),
            index >= self@.len() ==> (r matches Err(error) && is_missing(error, index)),
    {
        self.get(index, convert)
    }

    /// Returns an exclusive borrow of an argument. One that is not there is an error.
    pub fn get_borrow_mut<T, F>(&self, index: usize, convert: F) -> (r: Result<T, Error>) where
        F: Fn(&V) -> Result<T, Error>,

        requires
            forall|value: &V| call_requires(convert, (value,)),
        ensures
            index < self@.len() ==> gave(convert, self@[index as int], r),
            index >= self@.len() ==> (r matches Err(error) && is_missing(error, index)),
    {
        self.get(index, convert)
    }

    /// The arguments from an index on.
    pub open spec fn rest(&self, index: usize) -> Seq<V> {
        if index < self@.len() {
            self@.skip(index as int)
        } else {
            Seq::empty()
        }
    }

    /// Returns the converted arguments from an index on, in order, until one cannot be converted.
    pub fn get_rest<T, W, F>(&self, index: usize, state: W, convert: F) -> (r: (
        W,
        Result<Vec<T>, Error>,
    )) where F: Fn(W, &V) -> (W, Result<T, Error>)
        requires
            forall|state: W, value: &V| call_requires(convert, (state, value)),
        ensures
            all_appended(convert, self.rest(index), state, r.0, r.1),
    {
        let ghost values = self.rest(index);
        let ghost step = appending::<V, T, W, F>(convert, values);
        let ghost start = (state, Seq::<T>::empty());
        let ghost mut states: Seq<(W, Seq<T>)> = seq![start];
        proof {
            lemma_path_begins(step, start);
        }
        let mut items: Vec<T> = Vec::new();
        let mut current = state;
        let mut i: usize = index;
        while i < self.values.len()
            invariant
                index <= i,
                i <= self@.len() || i == index,
                items@.len() == i - index,
                forall|state: W, value: &V| call_requires(convert, (state, value)),
                values == self.rest(index),
                step == appending::<V, T, W, F>(convert, values),
                start == (state, Seq::<T>::empty()),
                is_path(step, start, states),
                states.len() == items@.len() + 1,
                states.last() == (current, items@),
            decreases self@.len() - i,
        {
            let ghost before = (current, items@);
            let ghost at = i - index;
            let (next, converted) = convert(current, &self.values[i]);
            assert(values[at] == self@[i as int]);
            match converted {
                Ok(item) => {
                    items.push(item);
                    proof {
                        let after = (next, items@);
                        assert(call_ensures(convert, (before.0, &values[at]), (after.0, converted)));
                        assert(appended(convert, values[at], before, after, Ok(())));
                        assert(step(at, before, after, Ok(())));
                        lemma_path_goes_on(step, start, states, after);
                        states = states.push(after);
                    }
                    current = next;
                }
                Err(error) => {
                    let ghost after = (next, before.1);
                    assert(call_ensures(convert, (before.0, &values[at]), (after.0, converted)));
                    assert(appended(convert, values[at], before, after, Err(error)));
                    assert(step(at, before, after, Err(error)));
                    assert(in_order(step, values.len(), start, after, Err(error)));
                    return (next, Err(error));
                }
            }
            i += 1;
        }
        assert(in_order(step, values.len(), start, (current, items@), Ok(())));
        (current, Ok(items))
    }

    /// Returns an argument. One that is not there is an error.
    pub fn required(&self, index: usize) -> (r: Result<&V, Error>)
        ensures
            match r {
                Ok(value) => index < self@.len() && *value == self@[index as int],
                Err(error) => index >= self@.len() && is_missing(error, index),
            },
    {
        if index < self.values.len() {
            Ok(&self.values[index])
        } else {
            let numeral = decimal_text(index as u64);
            let message = joined("missing host argument at index ", numeral.as_str());
            Err(Error::conversion(message.as_str()))
        }
    }
}

/// Whether converting an argument led from what was converted before to what is converted then.
pub open spec fn appended<V, T, W, F>(
    convert: F,
    value: V,
    before: (W, Seq<T>),
    after: (W, Seq<T>),
    outcome: Result<(), Error>,
) -> bool where F: Fn(W, &V) -> (W, Result<T, Error>) {
    exists|converted: Result<T, Error>|
        #![trigger call_ensures(convert, (before.0, &value), (after.0, converted))]
        call_ensures(convert, (before.0, &value), (after.0, converted)) && match converted {
            Ok(item) => outcome is Ok && after.1 == before.1.push(item),
            Err(error) => outcome == Err::<(), Error>(error) && after.1 == before.1,
        }
}

/// The conversion of arguments, as steps.
pub open spec fn appending<V, T, W, F>(convert: F, values: Seq<V>) -> spec_fn(
    int,
    (W, Seq<T>),
    (W, Seq<T>),
    Result<(), Error>,
) -> bool where F: Fn(W, &V) -> (W, Result<T, Error>) {
    |i: int, before: (W, Seq<T>), after: (W, Seq<T>), outcome: Result<(), Error>|
        appended(convert, values[i], before, after, outcome)
}

/// Whether arguments were converted in order, from the first on until one failed.
pub open spec fn all_appended<V, T, W, F>(
    convert: F,
    values: Seq<V>,
    start: W,
    end: W,
    outcome: Result<Vec<T>, Error>,
) -> bool where F: Fn(W, &V) -> (W, Result<T, Error>) {
    exists|items: Seq<T>, ended: Result<(), Error>| #[trigger]
        in_order(
            appending::<V, T, W, F>(convert, values),
            values.len(),
            (start, Seq::empty()),
            (end, items),
            ended,
        ) && match outcome {
            Ok(converted) => ended is Ok && converted@ == items && items.len() == values.len(),
            Err(error) => ended == Err::<(), Error>(error),
        }
}

} // verus!
