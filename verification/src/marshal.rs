//! Conversions across the host/guest boundary.

use vstd::prelude::*;

use crate::errors::Error;
use crate::handle::owned::Owned;
use crate::sequences::reverse;
use crate::steps::{in_order, is_path, lemma_path_begins, lemma_path_goes_on};
use crate::text::same_text;

verus! {

/// Describes a value that crosses the boundary in both directions.
pub trait GuestType {
    /// The owned host value.
    type Owned;
}

impl GuestType for () {
    type Owned = ();
}

impl GuestType for bool {
    type Owned = bool;
}

impl GuestType for i8 {
    type Owned = i8;
}

impl GuestType for i16 {
    type Owned = i16;
}

impl GuestType for i32 {
    type Owned = i32;
}

impl GuestType for i64 {
    type Owned = i64;
}

impl GuestType for isize {
    type Owned = isize;
}

impl GuestType for u8 {
    type Owned = u8;
}

impl GuestType for u16 {
    type Owned = u16;
}

impl GuestType for u32 {
    type Owned = u32;
}

impl GuestType for u64 {
    type Owned = u64;
}

impl GuestType for usize {
    type Owned = usize;
}

impl GuestType for char {
    type Owned = char;
}

impl GuestType for String {
    type Owned = String;
}

impl GuestType for bytes::Bytes {
    type Owned = bytes::Bytes;
}

impl<S, G> GuestType for Owned<S, G> {
    type Owned = Owned<S, G>;
}

impl<T> GuestType for Option<T> where T: GuestType {
    type Owned = Option<T::Owned>;
}

impl<T> GuestType for Vec<T> where T: GuestType {
    type Owned = Vec<T::Owned>;
}

impl<T> GuestType for Nullish<T> where T: GuestType {
    type Owned = Nullish<T::Owned>;
}

/// The type of a guest value, as the engine writes it, where a constructor counts as a function.
pub uninterp spec fn type_of_value(value: rquickjs::Value<'_>) -> Seq<char>;

/// The type that a type counts as: a function may become a constructor and the other way round, so
/// that the two count as one.
pub open spec fn lasting_type(name: Seq<char>) -> Seq<char> {
    if name == "constructor"@ {
        "function"@
    } else {
        name
    }
}

/// `rquickjs::Value::type_of`: the type of a guest value, as the engine writes it. But for the
/// difference between functions and constructors, which `rquickjs::Function::set_constructor`
/// changes, it depends on the value alone: on its tag and, for an object, on what kind of object it
/// was created as.
#[verifier::external_body]
fn type_text(value: &rquickjs::Value<'_>) -> (r: &'static str)
    ensures
        lasting_type(r@) == type_of_value(*value),
{
    value.type_of().as_str()
}

/// What an absent or present guest value is to the host.
#[derive(Clone, Copy, Debug, PartialEq, Eq, Structural)]
pub enum GuestKind {
    /// JavaScript `undefined`, or a variable that has no value yet.
    Undefined,
    /// JavaScript `null`.
    Null,
    /// Any other value.
    Present,
}

/// The kind of the values of a type.
pub open spec fn kind_of_type(name: Seq<char>) -> GuestKind {
    if name == "undefined"@ || name == "uninitialized"@ {
        GuestKind::Undefined
    } else if name == "null"@ {
        GuestKind::Null
    } else {
        GuestKind::Present
    }
}

impl GuestKind {
    /// Returns the kind of the values of a type, by the engine's name for the type.
    pub fn of_type(name: &str) -> (r: Self)
        ensures
            r == kind_of_type(name@),
    {
        if same_text(name, "undefined") || same_text(name, "uninitialized") {
            GuestKind::Undefined
        } else if same_text(name, "null") {
            GuestKind::Null
        } else {
            GuestKind::Present
        }
    }

    /// Returns the kind of a guest value.
    pub fn of(value: &rquickjs::Value<'_>) -> (r: Self)
        ensures
            r == kind_of_type(type_of_value(*value)),
    {
        let name = type_text(value);
        proof {
            reveal_strlit("constructor");
            reveal_strlit("function");
            reveal_strlit("undefined");
            reveal_strlit("uninitialized");
            reveal_strlit("null");
            assert("constructor"@[0] == 'c');
            assert("function"@[0] == 'f');
            assert("undefined"@[0] == 'u');
            assert("uninitialized"@[0] == 'u');
            assert("null"@[0] == 'n');
        }
        GuestKind::of_type(name)
    }
}

/// A JavaScript value that distinguishes `undefined` from `null`.
#[derive(Debug, Clone, Copy, PartialEq, Eq)]
pub enum Nullish<T> {
    /// JavaScript `undefined`.
    Undefined,
    /// JavaScript `null`.
    Null,
    /// A present value.
    Present(T),
}

impl<T> Nullish<T> {
    /// The present value, if there is one.
    pub open spec fn present(self) -> Option<T> {
        match self {
            Nullish::Present(value) => Some(value),
            _ => None,
        }
    }

    /// Maps a present value.
    pub fn map<U, F>(self, f: F) -> (r: Nullish<U>) where F: FnOnce(T) -> U
        requires
            self matches Nullish::Present(value) ==> call_requires(f, (value,)),
        ensures
            match self {
                Nullish::Present(value) => r matches Nullish::Present(mapped) && call_ensures(
                    f,
                    (value,),
                    mapped,
                ),
                Nullish::Null => r == Nullish::<U>::Null,
                Nullish::Undefined => r == Nullish::<U>::Undefined,
            },
    {
        match self {
            Nullish::Present(value) => Nullish::Present(f(value)),
            Nullish::Null => Nullish::Null,
            Nullish::Undefined => Nullish::Undefined,
        }
    }

    /// Returns the present value or a default.
    pub fn unwrap_or(self, default: T) -> (r: T)
        ensures
            r == (match self {
                Nullish::Present(value) => value,
                _ => default,
            }),
    {
        match self {
            Nullish::Present(value) => value,
            _ => default,
        }
    }

    /// Returns the present value or computes a default.
    pub fn unwrap_or_else<F>(self, f: F) -> (r: T) where F: FnOnce() -> T
        requires
            !(self is Present) ==> call_requires(f, ()),
        ensures
            match self {
                Nullish::Present(value) => r == value,
                _ => call_ensures(f, (), r),
            },
    {
        match self {
            Nullish::Present(value) => value,
            _ => f(),
        }
    }

    /// Converts the present value into a result.
    pub fn ok_or<E>(self, error: E) -> (r: Result<T, E>)
        ensures
            r == (match self {
                Nullish::Present(value) => Ok::<T, E>(value),
                _ => Err(error),
            }),
    {
        match self {
            Nullish::Present(value) => Ok(value),
            _ => Err(error),
        }
    }

    /// Converts the present value into a result with a computed error.
    pub fn ok_or_else<E, F>(self, error: F) -> (r: Result<T, E>) where F: FnOnce() -> E
        requires
            !(self is Present) ==> call_requires(error, ()),
        ensures
            match self {
                Nullish::Present(value) => r == Ok::<T, E>(value),
                _ => r matches Err(computed) && call_ensures(error, (), computed),
            },
    {
        match self {
            Nullish::Present(value) => Ok(value),
            _ => Err(error()),
        }
    }

    /// Converts a guest value of a kind: only a present one is converted.
    pub fn from_guest<V, F>(kind: GuestKind, value: V, convert: F) -> (r: Result<
        Nullish<T>,
        Error,
    >) where F: FnOnce(V) -> Result<T, Error>
        requires
            kind == GuestKind::Present ==> call_requires(convert, (value,)),
        ensures
            kind == GuestKind::Undefined ==> r == Ok::<Nullish<T>, Error>(Nullish::Undefined),
            kind == GuestKind::Null ==> r == Ok::<Nullish<T>, Error>(Nullish::Null),
            kind == GuestKind::Present ==> exists|converted: Result<T, Error>|
                call_ensures(convert, (value,), converted) && #[trigger] wrapped(converted, r),
    {
        match kind {
            GuestKind::Undefined => Ok(Nullish::Undefined),
            GuestKind::Null => Ok(Nullish::Null),
            GuestKind::Present => {
                let converted = convert(value);
                let r = match converted {
                    Ok(value) => Ok(Nullish::Present(value)),
                    Err(error) => Err(error),
                };
                assert(wrapped(converted, r));
                r
            }
        }
    }

    /// Converts the value for the guest: a present value by its own conversion, the others into
    /// the guest's `null` and `undefined`.
    pub fn to_guest<V, F>(self, null: V, undefined: V, convert: F) -> (r: Result<V, Error>) where
        F: FnOnce(T) -> Result<V, Error>,

        requires
            self matches Nullish::Present(value) ==> call_requires(convert, (value,)),
        ensures
            match self {
                Nullish::Present(value) => call_ensures(convert, (value,), r),
                Nullish::Null => r == Ok::<V, Error>(null),
                Nullish::Undefined => r == Ok::<V, Error>(undefined),
            },
    {
        match self {
            Nullish::Present(value) => convert(value),
            Nullish::Null => Ok(null),
            Nullish::Undefined => Ok(undefined),
        }
    }
}

/// Whether a result is that of a conversion, with its value present.
pub open spec fn wrapped<T>(converted: Result<T, Error>, r: Result<Nullish<T>, Error>) -> bool {
    match converted {
        Ok(value) => r == Ok::<Nullish<T>, Error>(Nullish::Present(value)),
        Err(error) => r == Err::<Nullish<T>, Error>(error),
    }
}

impl<T> vstd::std_specs::convert::FromSpecImpl<Nullish<T>> for Option<T> {
    open spec fn obeys_from_spec() -> bool {
        true
    }

    open spec fn from_spec(value: Nullish<T>) -> Option<T> {
        value.present()
    }
}

impl<T> From<Nullish<T>> for Option<T> {
    fn from(value: Nullish<T>) -> (r: Option<T>) {
        match value {
            Nullish::Present(value) => Some(value),
            _ => None,
        }
    }
}

impl<T> vstd::std_specs::convert::FromSpecImpl<Option<T>> for Nullish<T> {
    open spec fn obeys_from_spec() -> bool {
        true
    }

    open spec fn from_spec(value: Option<T>) -> Nullish<T> {
        match value {
            Some(value) => Nullish::Present(value),
            None => Nullish::Undefined,
        }
    }
}

impl<T> From<Option<T>> for Nullish<T> {
    fn from(value: Option<T>) -> (r: Nullish<T>) {
        match value {
            Some(value) => Nullish::Present(value),
            None => Nullish::Undefined,
        }
    }
}

/// Whether a guest value of a kind was converted into an optional value: `undefined` and `null` are
/// none, without a conversion, and any other value is what its own conversion gives.
pub open spec fn read_as_option<T, V, F>(
    kind: GuestKind,
    value: V,
    convert: F,
    result: Result<Option<T>, Error>,
) -> bool where F: FnOnce(V) -> Result<T, Error> {
    if kind != GuestKind::Present {
        result == Ok::<Option<T>, Error>(None)
    } else {
        exists|converted: Result<T, Error>|
            #![trigger call_ensures(convert, (value,), converted)]
            call_ensures(convert, (value,), converted) && match converted {
                Ok(value) => result == Ok::<Option<T>, Error>(Some(value)),
                Err(error) => result == Err::<Option<T>, Error>(error),
            }
    }
}

/// Whether an optional value was converted for the guest: none is `null`, and any other is what its
/// own conversion gives.
pub open spec fn written_as_option<T, V, F>(
    value: Option<T>,
    null: V,
    convert: F,
    result: Result<V, Error>,
) -> bool where F: FnOnce(T) -> Result<V, Error> {
    match value {
        Some(value) => call_ensures(convert, (value,), result),
        None => result == Ok::<V, Error>(null),
    }
}

/// Converts a guest value of a kind into an optional value.
pub fn option_from_guest<T, V, F>(kind: GuestKind, value: V, convert: F) -> (r: Result<
    Option<T>,
    Error,
>) where F: FnOnce(V) -> Result<T, Error>
    requires
        kind == GuestKind::Present ==> call_requires(convert, (value,)),
    ensures
        read_as_option(kind, value, convert, r),
{
    match kind {
        GuestKind::Undefined | GuestKind::Null => Ok(None),
        GuestKind::Present => match convert(value) {
            Ok(value) => Ok(Some(value)),
            Err(error) => Err(error),
        },
    }
}

/// Converts an optional value for the guest.
pub fn option_to_guest<T, V, F>(value: Option<T>, null: V, convert: F) -> (r: Result<V, Error>) where
    F: FnOnce(T) -> Result<V, Error>,

    requires
        value matches Some(value) ==> call_requires(convert, (value,)),
    ensures
        written_as_option(value, null, convert, r),
{
    match value {
        Some(value) => convert(value),
        None => Ok(null),
    }
}

/// Whether fetching the item at an index and then converting it led from one state to another with
/// an outcome. One that cannot be fetched is not converted.
pub open spec fn fetched_item<T, V, W, G, F>(
    fetch: G,
    convert: F,
    index: usize,
    before: W,
    after: W,
    outcome: Result<T, Error>,
) -> bool where G: Fn(W, usize) -> (W, Result<V, Error>), F: Fn(W, V) -> (W, Result<T, Error>) {
    exists|between: W, fetched: Result<V, Error>|
        #![trigger call_ensures(fetch, (before, index), (between, fetched))]
        call_ensures(fetch, (before, index), (between, fetched)) && match fetched {
            Ok(value) => call_ensures(convert, (between, value), (after, outcome)),
            Err(error) => after == between && outcome == Err::<T, Error>(error),
        }
}

/// Whether fetching and converting the item at an index led from what was converted before to what
/// is converted then.
pub open spec fn appended_item<T, V, W, G, F>(
    fetch: G,
    convert: F,
    index: usize,
    before: (W, Seq<T>),
    after: (W, Seq<T>),
    outcome: Result<(), Error>,
) -> bool where G: Fn(W, usize) -> (W, Result<V, Error>), F: Fn(W, V) -> (W, Result<T, Error>) {
    exists|item: Result<T, Error>| #[trigger]
        fetched_item(fetch, convert, index, before.0, after.0, item) && match item {
            Ok(item) => outcome is Ok && after.1 == before.1.push(item),
            Err(error) => outcome == Err::<(), Error>(error) && after.1 == before.1,
        }
}

/// The conversion of a guest array, as steps.
pub open spec fn fetching<T, V, W, G, F>(fetch: G, convert: F) -> spec_fn(
    int,
    (W, Seq<T>),
    (W, Seq<T>),
    Result<(), Error>,
) -> bool where G: Fn(W, usize) -> (W, Result<V, Error>), F: Fn(W, V) -> (W, Result<T, Error>) {
    |i: int, before: (W, Seq<T>), after: (W, Seq<T>), outcome: Result<(), Error>|
        appended_item(fetch, convert, i as usize, before, after, outcome)
}

/// Whether the items of a guest array of a length were fetched and converted in order, from the
/// first on until one failed.
pub open spec fn all_fetched<T, V, W, G, F>(
    fetch: G,
    convert: F,
    count: usize,
    start: W,
    end: W,
    outcome: Result<Vec<T>, Error>,
) -> bool where G: Fn(W, usize) -> (W, Result<V, Error>), F: Fn(W, V) -> (W, Result<T, Error>) {
    exists|items: Seq<T>, ended: Result<(), Error>| #[trigger]
        in_order(
            fetching::<T, V, W, G, F>(fetch, convert),
            count as nat,
            (start, Seq::empty()),
            (end, items),
            ended,
        ) && match outcome {
            Ok(converted) => ended is Ok && converted@ == items && items.len() == count,
            Err(error) => ended == Err::<(), Error>(error),
        }
}

/// Converts a guest array of a length, item by item from the first on, until one fails. A value
/// that is no array has no length.
pub fn vec_from_guest<T, V, W, G, F>(
    length: Option<usize>,
    state: W,
    fetch: G,
    convert: F,
) -> (r: (W, Result<Vec<T>, Error>)) where
    G: Fn(W, usize) -> (W, Result<V, Error>),
    F: Fn(W, V) -> (W, Result<T, Error>),

    requires
        forall|state: W, index: usize| call_requires(fetch, (state, index)),
        forall|state: W, value: V| call_requires(convert, (state, value)),
    ensures
        length is None ==> r.0 == state && (r.1 matches Err(error) && error is Conversion
            && error.details() == Some(("expected an array"@, None::<Seq<char>>))),
        length matches Some(count) ==> all_fetched(fetch, convert, count, state, r.0, r.1),
{
    let count = match length {
        Some(count) => count,
        None => {
            return (state, Err(Error::conversion("expected an array")));
        }
    };
    let ghost step = fetching::<T, V, W, G, F>(fetch, convert);
    let ghost start = (state, Seq::<T>::empty());
    let ghost mut states: Seq<(W, Seq<T>)> = seq![start];
    proof {
        lemma_path_begins(step, start);
    }
    let mut items: Vec<T> = Vec::new();
    let mut current = state;
    let mut index: usize = 0;
    while index < count
        invariant
            index <= count,
            length == Some(count),
            items@.len() == index,
            forall|state: W, index: usize| call_requires(fetch, (state, index)),
            forall|state: W, value: V| call_requires(convert, (state, value)),
            step == fetching::<T, V, W, G, F>(fetch, convert),
            start == (state, Seq::<T>::empty()),
            is_path(step, start, states),
            states.len() == index + 1,
            states.last() == (current, items@),
        decreases count - index,
    {
        let ghost before = (current, items@);
        let (between, fetched) = fetch(current, index);
        assert(call_ensures(fetch, (before.0, index), (between, fetched)));
        let value = match fetched {
            Ok(value) => value,
            Err(error) => {
                let ghost after = (between, before.1);
                let ghost item = Err::<T, Error>(error);
                assert(fetched_item(fetch, convert, index, before.0, after.0, item));
                assert(appended_item(fetch, convert, index, before, after, Err(error)));
                assert(step(index as int, before, after, Err(error)));
                assert(in_order(step, count as nat, start, after, Err(error)));
                return (between, Err(error));
            }
        };
        let (next, converted) = convert(between, value);
        match converted {
            Ok(item) => {
                items.push(item);
                proof {
                    let after = (next, items@);
                    assert(fetched_item(fetch, convert, index, before.0, after.0, converted));
                    assert(appended_item(fetch, convert, index, before, after, Ok(())));
                    assert(step(index as int, before, after, Ok(())));
                    lemma_path_goes_on(step, start, states, after);
                    states = states.push(after);
                }
                current = next;
            }
            Err(error) => {
                let ghost after = (next, before.1);
                assert(fetched_item(fetch, convert, index, before.0, after.0, converted));
                assert(appended_item(fetch, convert, index, before, after, Err(error)));
                assert(step(index as int, before, after, Err(error)));
                assert(in_order(step, count as nat, start, after, Err(error)));
                return (next, Err(error));
            }
        }
        index += 1;
    }
    assert(in_order(step, count as nat, start, (current, items@), Ok(())));
    (current, Ok(items))
}

/// Whether converting an item and then storing it at an index led from one state to another with an
/// outcome. One that cannot be converted is not stored.
pub open spec fn stored_item<T, V, W, F, G>(
    convert: F,
    store: G,
    index: usize,
    item: T,
    before: W,
    after: W,
    outcome: Result<(), Error>,
) -> bool where
    F: Fn(W, T) -> (W, Result<V, Error>),
    G: Fn(W, usize, V) -> (W, Result<(), Error>),
 {
    exists|between: W, converted: Result<V, Error>|
        #![trigger call_ensures(convert, (before, item), (between, converted))]
        call_ensures(convert, (before, item), (between, converted)) && match converted {
            Ok(value) => call_ensures(store, (between, index, value), (after, outcome)),
            Err(error) => after == between && outcome == Err::<(), Error>(error),
        }
}

/// The items of a guest array on their way to it, as steps.
pub open spec fn filling<T, V, W, F, G>(convert: F, store: G, items: Seq<T>) -> spec_fn(
    int,
    W,
    W,
    Result<(), Error>,
) -> bool where
    F: Fn(W, T) -> (W, Result<V, Error>),
    G: Fn(W, usize, V) -> (W, Result<(), Error>),
 {
    |i: int, before: W, after: W, outcome: Result<(), Error>|
        stored_item::<T, V, W, F, G>(convert, store, i as usize, items[i], before, after, outcome)
}

/// Fills a guest array with items from the first on, each converted and then stored at its index,
/// until one fails.
pub fn fill_array<T, V, W, F, G>(items: Vec<T>, state: W, convert: F, store: G) -> (r: (
    W,
    Result<(), Error>,
)) where
    F: Fn(W, T) -> (W, Result<V, Error>),
    G: Fn(W, usize, V) -> (W, Result<(), Error>),

    requires
        forall|state: W, item: T| call_requires(convert, (state, item)),
        forall|state: W, index: usize, value: V| call_requires(store, (state, index, value)),
    ensures
        in_order(
            filling::<T, V, W, F, G>(convert, store, items@),
            items@.len(),
            state,
            r.0,
            r.1,
        ),
{
    let ghost all = items@;
    let ghost step = filling::<T, V, W, F, G>(convert, store, all);
    let ghost mut states: Seq<W> = seq![state];
    proof {
        lemma_path_begins(step, state);
    }
    let mut pending = items;
    let total: usize = pending.len();
    let mut index: usize = 0;
    let mut current = state;
    reverse(&mut pending);
    while index < total
        invariant
            index <= total,
            total == all.len(),
            all == items@,
            pending@.len() == total - index,
            forall|i: int|
                0 <= i < pending@.len() ==> #[trigger] pending@[i] == all[total - 1 - i],
            forall|state: W, item: T| call_requires(convert, (state, item)),
            forall|state: W, index: usize, value: V| call_requires(store, (state, index, value)),
            step == filling::<T, V, W, F, G>(convert, store, all),
            is_path(step, state, states),
            states.len() == index + 1,
            states.last() == current,
        decreases total - index,
    {
        match pending.pop() {
            Some(item) => {
                assert(item == all[index as int]);
                let (between, converted) = convert(current, item);
                assert(call_ensures(convert, (states.last(), item), (between, converted)));
                match converted {
                    Ok(value) => {
                        let (next, stored) = store(between, index, value);
                        assert(step(index as int, states.last(), next, stored));
                        match stored {
                            Ok(unit) => {
                                proof {
                                    assert(unit == ());
                                    lemma_path_goes_on(step, state, states, next);
                                    states = states.push(next);
                                }
                                current = next;
                            }
                            Err(error) => {
                                return (next, Err(error));
                            }
                        }
                    }
                    Err(error) => {
                        assert(step(index as int, states.last(), between, Err(error)));
                        return (between, Err(error));
                    }
                }
            }
            None => {
                assert(false);
                return (current, Ok(()));
            }
        }
        index += 1;
    }
    (current, Ok(()))
}

/// The bytes of a `bytes::Bytes`.
pub uninterp spec fn bytes_of(bytes: bytes::Bytes) -> Seq<u8>;

/// `bytes::Bytes::copy_from_slice`: a value that holds a copy of the bytes.
#[verifier::external_body]
fn copied(data: &[u8]) -> (r: bytes::Bytes)
    ensures
        bytes_of(r) == data@,
{
    bytes::Bytes::copy_from_slice(data)
}

/// `bytes::Bytes::as_ref`: the bytes of the value.
#[verifier::external_body]
fn borrowed(bytes: &bytes::Bytes) -> (r: &[u8])
    ensures
        r@ == bytes_of(*bytes),
{
    bytes.as_ref()
}

/// Converts the memory of a guest `Uint8Array` into bytes. The memory is copied, as it belongs to
/// the guest; detached memory is an error.
pub fn bytes_from_guest(memory: Option<&[u8]>) -> (r: Result<bytes::Bytes, Error>)
    ensures
        match memory {
            Some(data) => r matches Ok(bytes) && bytes_of(bytes) == data@,
            None => r matches Err(error) && error is Conversion && error.details() == Some(
                ("Uint8Array is detached"@, None::<Seq<char>>),
            ),
        },
{
    match memory {
        Some(data) => Ok(copied(data)),
        None => Err(Error::conversion("Uint8Array is detached")),
    }
}

/// Converts bytes for the guest, given how the engine makes a `Uint8Array` from a copy of them.
pub fn bytes_to_guest<V, F>(bytes: &bytes::Bytes, create: F) -> (r: Result<V, Error>) where
    F: FnOnce(&[u8]) -> Result<V, Error>,

    requires
        forall|data: &[u8]| call_requires(create, (data,)),
    ensures
        exists|data: &[u8]|
            data@ == bytes_of(*bytes) && #[trigger] call_ensures(create, (data,), r),
{
    let data = borrowed(bytes);
    create(data)
}

/// An optional value survives the way to the guest and back, where its own conversions do and none
/// of them gives `null` or `undefined`.
pub proof fn law_optional_values_survive<T, V, F, G>(
    value: Option<T>,
    null: V,
    guest: V,
    kind_of: spec_fn(V) -> GuestKind,
    to_guest: F,
    from_guest: G,
    back: Result<Option<T>, Error>,
) where F: FnOnce(T) -> Result<V, Error>, G: FnOnce(V) -> Result<T, Error>
    requires
        kind_of(null) == GuestKind::Null,
        forall|item: T, converted: V| #[trigger]
            call_ensures(to_guest, (item,), Ok::<V, Error>(converted)) ==> kind_of(converted)
                == GuestKind::Present,
        forall|item: T, converted: V, read: Result<T, Error>|
            #![trigger
                call_ensures(to_guest, (item,), Ok::<V, Error>(converted)),
                call_ensures(from_guest, (converted,), read)]
            call_ensures(to_guest, (item,), Ok::<V, Error>(converted)) && call_ensures(
                from_guest,
                (converted,),
                read,
            ) ==> read == Ok::<T, Error>(item),
        written_as_option(value, null, to_guest, Ok::<V, Error>(guest)),
        read_as_option(kind_of(guest), guest, from_guest, back),
    ensures
        back == Ok::<Option<T>, Error>(value),
{
}

/// A value survives the way through [`Nullish`](crate::marshal::Nullish), and only the difference
/// between `undefined` and `null` is lost on the way back.
pub proof fn law_nullish_round_trip<T>(value: Option<T>, nullish: Nullish<T>)
    ensures
        <Nullish<T> as vstd::std_specs::convert::FromSpec<Option<T>>>::from_spec(
            value,
        ).present() == value,
        !(nullish is Null) ==> <Nullish<T> as vstd::std_specs::convert::FromSpec<
            Option<T>,
        >>::from_spec(nullish.present()) == nullish,
{
}

} // verus!
