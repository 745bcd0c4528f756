//! Values across the boundary.

use vstd::prelude::*;

use crate::errors::Error;
use crate::host::class::iterate;
use crate::laws::errors::says_conversion;
use crate::marshal::{
    bytes_from_guest, bytes_to_guest, fetched_item, fetching, fill_array, filling,
    option_from_guest, option_to_guest, stored_item, type_of_value, vec_from_guest, GuestKind,
    Nullish,
};
use crate::steps::is_path;

verus! {

/// Only the types of `undefined`, of a variable without a value and of `null` are absent; whatever
/// else there is, is present. A value is of the kind of its type.
pub proof fn law_only_null_and_undefined_are_absent<'js>(
    name: &str,
    kind: GuestKind,
    value: &rquickjs::Value<'js>,
    of_value: GuestKind,
)
    requires
        call_ensures(GuestKind::of_type, (name,), kind),
        call_ensures(GuestKind::of, (value,), of_value),
    ensures
        kind == GuestKind::Undefined <==> name@ == "undefined"@ || name@ == "uninitialized"@,
        kind == GuestKind::Null <==> name@ == "null"@,
        kind == GuestKind::Present <==> name@ != "undefined"@ && name@ != "uninitialized"@ && name@
            != "null"@,
        type_of_value(*value) == name@ ==> of_value == kind,
{
    reveal_strlit("undefined");
    reveal_strlit("uninitialized");
    reveal_strlit("null");
    assert("null"@[0] == 'n');
    assert("undefined"@[0] == 'u');
    assert("uninitialized"@[0] == 'u');
}

/// Mapping changes a present value only, and keeps `null` and `undefined` apart.
pub proof fn law_mapping_keeps_absence<T, U, F>(value: Nullish<T>, f: F, mapped: Nullish<U>) where
    F: FnOnce(T) -> U,

    requires
        call_ensures(Nullish::<T>::map::<U, F>, (value, f), mapped),
    ensures
        mapped is Null <==> value is Null,
        mapped is Undefined <==> value is Undefined,
        mapped matches Nullish::Present(given) ==> (value matches Nullish::Present(own)
            && call_ensures(f, (own,), given)),
{
}

/// A present value is taken, and for an absent one the replacement or the error.
pub proof fn law_absent_values_are_replaced<T, E, F, G>(
    value: Nullish<T>,
    default: T,
    taken: T,
    f: F,
    computed: T,
    error: E,
    found: Result<T, E>,
    g: G,
    found_lazily: Result<T, E>,
) where F: FnOnce() -> T, G: FnOnce() -> E
    requires
        call_ensures(Nullish::<T>::unwrap_or, (value, default), taken),
        call_ensures(Nullish::<T>::unwrap_or_else::<F>, (value, f), computed),
        call_ensures(Nullish::<T>::ok_or::<E>, (value, error), found),
        call_ensures(Nullish::<T>::ok_or_else::<E, G>, (value, g), found_lazily),
    ensures
        value matches Nullish::Present(own) ==> taken == own && computed == own && found == Ok::<
            T,
            E,
        >(own) && found_lazily == Ok::<T, E>(own),
        !(value is Present) ==> taken == default && call_ensures(f, (), computed) && found == Err::<
            T,
            E,
        >(error) && (found_lazily matches Err(given) && call_ensures(g, (), given)),
{
}

/// A guest value is `undefined`, `null` or what its own conversion gives.
pub proof fn law_nullish_values_are_read<T, V, F>(
    kind: GuestKind,
    value: V,
    convert: F,
    read: Result<Nullish<T>, Error>,
) where F: FnOnce(V) -> Result<T, Error>
    requires
        call_ensures(Nullish::<T>::from_guest::<V, F>, (kind, value, convert), read),
    ensures
        kind == GuestKind::Undefined <==> read == Ok::<Nullish<T>, Error>(Nullish::Undefined),
        kind == GuestKind::Null <==> read == Ok::<Nullish<T>, Error>(Nullish::Null),
        read matches Ok(Nullish::Present(own)) ==> call_ensures(
            convert,
            (value,),
            Ok::<T, Error>(own),
        ),
        read matches Err(error) ==> call_ensures(convert, (value,), Err::<T, Error>(error)),
{
}

/// A nullish value is written as the guest's `undefined`, its `null`, or what its own conversion
/// gives.
pub proof fn law_nullish_values_are_written<T, V, F>(
    value: Nullish<T>,
    null: V,
    undefined: V,
    convert: F,
    written: Result<V, Error>,
) where F: FnOnce(T) -> Result<V, Error>
    requires
        call_ensures(
            Nullish::<T>::to_guest::<V, F>,
            (value, null, undefined, convert),
            written,
        ),
    ensures
        value is Null ==> written == Ok::<V, Error>(null),
        value is Undefined ==> written == Ok::<V, Error>(undefined),
        value matches Nullish::Present(own) ==> call_ensures(convert, (own,), written),
{
}

/// An absent guest value is no value, and a present one is what its own conversion gives; no value
/// is written as the guest's `null`.
pub proof fn law_options_are_read_and_written<T, V, F, G>(
    kind: GuestKind,
    value: V,
    from: F,
    read: Result<Option<T>, Error>,
    option: Option<T>,
    null: V,
    to: G,
    written: Result<V, Error>,
) where F: FnOnce(V) -> Result<T, Error>, G: FnOnce(T) -> Result<V, Error>
    requires
        call_ensures(option_from_guest::<T, V, F>, (kind, value, from), read),
        call_ensures(option_to_guest::<T, V, G>, (option, null, to), written),
    ensures
        read == Ok::<Option<T>, Error>(None) <==> kind != GuestKind::Present,
        read matches Ok(Some(own)) ==> call_ensures(from, (value,), Ok::<T, Error>(own)),
        read matches Err(error) ==> call_ensures(from, (value,), Err::<T, Error>(error)),
        option is None ==> written == Ok::<V, Error>(null),
        option matches Some(own) ==> call_ensures(to, (own,), written),
{
}

/// An optional value survives the way to the guest and back, where its own conversions do and none
/// of them gives an absent value.
pub proof fn law_options_come_back<T, V, F, G>(
    option: Option<T>,
    null: V,
    to: G,
    guest: V,
    kind: GuestKind,
    from: F,
    back: Result<Option<T>, Error>,
) where F: FnOnce(V) -> Result<T, Error>, G: FnOnce(T) -> Result<V, Error>
    requires
        call_ensures(option_to_guest::<T, V, G>, (option, null, to), Ok::<V, Error>(guest)),
        option is None ==> kind == GuestKind::Null,
        option is Some ==> kind == GuestKind::Present,
        call_ensures(option_from_guest::<T, V, F>, (kind, guest, from), back),
        option matches Some(own) ==> forall|read: Result<T, Error>| #[trigger]
            call_ensures(from, (guest,), read) ==> read == Ok::<T, Error>(own),
    ensures
        back == Ok::<Option<T>, Error>(option),
{
}

/// A value that is no array is refused. Of an array every item is fetched and then converted, in
/// order and each on what the one before it left: a success has as many items as the array.
pub proof fn law_arrays_are_read_in_order<T, V, W, G, F>(
    length: Option<usize>,
    state: W,
    fetch: G,
    convert: F,
    end: W,
    outcome: Result<Vec<T>, Error>,
) where G: Fn(W, usize) -> (W, Result<V, Error>), F: Fn(W, V) -> (W, Result<T, Error>)
    requires
        call_ensures(
            vec_from_guest::<T, V, W, G, F>,
            (length, state, fetch, convert),
            (end, outcome),
        ),
    ensures
        length is None ==> end == state && (outcome matches Err(error) && says_conversion(
            error,
            "expected an array"@,
        )),
        length matches Some(count) ==> (outcome matches Ok(items) ==> items@.len() == count
            && exists|states: Seq<W>|
            #![trigger states.len()]
            states.len() == items@.len() + 1 && states[0] == state && states.last() == end
                && forall|i: int|
                0 <= i < items@.len() ==> #[trigger] fetches(
                    fetch,
                    convert,
                    i as usize,
                    states[i],
                    states[i + 1],
                    Ok::<T, Error>(items@[i]),
                )),
{
    if length is Some && outcome is Ok {
        let items = outcome->Ok_0;
        let count = length.unwrap();
        let step = fetching::<T, V, W, G, F>(fetch, convert);
        let start = (state, Seq::<T>::empty());
        let path = choose|path: Seq<(W, Seq<T>)>| #[trigger]
            is_path(step, start, path) && path.len() == count + 1 && path.last() == (end, items@);
        let states = Seq::new(path.len(), |i: int| path[i].0);
        lemma_fetched_so_far(fetch, convert, start, path, count, count as int);
        assert(states.len() == items@.len() + 1);
        assert forall|i: int| 0 <= i < items@.len() implies #[trigger] fetches(
            fetch,
            convert,
            i as usize,
            states[i],
            states[i + 1],
            Ok::<T, Error>(items@[i]),
        ) by {
            assert(fetches(
                fetch,
                convert,
                i as usize,
                path[i].0,
                path[i + 1].0,
                Ok::<T, Error>(path[count as int].1[i]),
            ));
        }
    }
}

/// Whether the item at an index was fetched and then converted.
pub open spec fn fetches<T, V, W, G, F>(
    fetch: G,
    convert: F,
    index: usize,
    before: W,
    after: W,
    item: Result<T, Error>,
) -> bool where G: Fn(W, usize) -> (W, Result<V, Error>), F: Fn(W, V) -> (W, Result<T, Error>) {
    exists|between: W, value: V|
        #![trigger call_ensures(fetch, (before, index), (between, Ok::<V, Error>(value)))]
        call_ensures(fetch, (before, index), (between, Ok::<V, Error>(value))) && call_ensures(
            convert,
            (between, value),
            (after, item),
        )
}

proof fn lemma_fetched_so_far<T, V, W, G, F>(
    fetch: G,
    convert: F,
    start: (W, Seq<T>),
    path: Seq<(W, Seq<T>)>,
    count: usize,
    n: int,
) where G: Fn(W, usize) -> (W, Result<V, Error>), F: Fn(W, V) -> (W, Result<T, Error>)
    requires
        start.1 == Seq::<T>::empty(),
        is_path(fetching::<T, V, W, G, F>(fetch, convert), start, path),
        path.len() == count + 1,
        0 <= n <= count,
    ensures
        path[n].1.len() == n,
        forall|i: int|
            0 <= i < n ==> #[trigger] fetches(
                fetch,
                convert,
                i as usize,
                path[i].0,
                path[i + 1].0,
                Ok::<T, Error>(path[n].1[i]),
            ),
    decreases n,
{
    if n > 0 {
        lemma_fetched_so_far(fetch, convert, start, path, count, n - 1);
        let step = fetching::<T, V, W, G, F>(fetch, convert);
        let before = path[n - 1];
        let after = path[n];
        assert(step(n - 1, path[n - 1], path[n - 1 + 1], Ok(())));
        assert(crate::marshal::appended_item(fetch, convert, (n - 1) as usize, before, after,
            Ok(())));
        let item = choose|item: Result<T, Error>| #[trigger]
            fetched_item(fetch, convert, (n - 1) as usize, before.0, after.0, item) && match item {
                Ok(item) => after.1 == before.1.push(item),
                Err(error) => false,
            };
        assert(fetches(fetch, convert, (n - 1) as usize, before.0, after.0, item));
        assert forall|i: int| 0 <= i < n implies #[trigger] fetches(
            fetch,
            convert,
            i as usize,
            path[i].0,
            path[i + 1].0,
            Ok::<T, Error>(path[n].1[i]),
        ) by {
            if i < n - 1 {
                assert(path[n].1[i] == path[n - 1].1[i]);
                assert(fetches(
                    fetch,
                    convert,
                    i as usize,
                    path[i].0,
                    path[i + 1].0,
                    Ok::<T, Error>(path[n - 1].1[i]),
                ));
            } else {
                assert(item == Ok::<T, Error>(path[n].1[i]));
            }
        }
    }
}

/// Whether an item was converted and then stored at an index.
pub open spec fn stores<T, V, W, F, G>(
    convert: F,
    store: G,
    index: usize,
    item: T,
    before: W,
    after: W,
) -> bool where
    F: Fn(W, T) -> (W, Result<V, Error>),
    G: Fn(W, usize, V) -> (W, Result<(), Error>),
 {
    exists|between: W, value: V|
        #![trigger call_ensures(convert, (before, item), (between, Ok::<V, Error>(value)))]
        call_ensures(convert, (before, item), (between, Ok::<V, Error>(value))) && call_ensures(
            store,
            (between, index, value),
            (after, Ok::<(), Error>(())),
        )
}

/// Whether an item could not be converted, or not be stored at an index.
pub open spec fn fails_to_store<T, V, W, F, G>(
    convert: F,
    store: G,
    index: usize,
    item: T,
    before: W,
    after: W,
    error: Error,
) -> bool where
    F: Fn(W, T) -> (W, Result<V, Error>),
    G: Fn(W, usize, V) -> (W, Result<(), Error>),
 {
    ||| call_ensures(convert, (before, item), (after, Err::<V, Error>(error)))
    ||| exists|between: W, value: V|
        #![trigger call_ensures(convert, (before, item), (between, Ok::<V, Error>(value)))]
        call_ensures(convert, (before, item), (between, Ok::<V, Error>(value))) && call_ensures(
            store,
            (between, index, value),
            (after, Err::<(), Error>(error)),
        )
}

/// Whether items fill an array in order, each at its index and on what the one before it left,
/// until one fails: a success has stored all of them, and none comes behind one that fails.
pub open spec fn fills_in_order<T, V, W, F, G>(
    convert: F,
    store: G,
    items: Seq<T>,
    start: W,
    end: W,
    outcome: Result<(), Error>,
) -> bool where
    F: Fn(W, T) -> (W, Result<V, Error>),
    G: Fn(W, usize, V) -> (W, Result<(), Error>),
 {
    exists|states: Seq<W>|
        #![trigger states.len()]
        states.len() > 0 && states[0] == start && (forall|i: int|
            0 <= i < states.len() - 1 ==> #[trigger] stores::<T, V, W, F, G>(
                convert,
                store,
                i as usize,
                items[i],
                states[i],
                states[i + 1],
            )) && match outcome {
            Ok(_) => states.len() == items.len() + 1 && states.last() == end,
            Err(error) => states.len() <= items.len() && fails_to_store::<T, V, W, F, G>(
                convert,
                store,
                (states.len() - 1) as usize,
                items[states.len() - 1],
                states.last(),
                end,
                error,
            ),
        }
}

proof fn lemma_filled_in_order<T, V, W, F, G>(
    convert: F,
    store: G,
    items: Seq<T>,
    start: W,
    end: W,
    outcome: Result<(), Error>,
) where
    F: Fn(W, T) -> (W, Result<V, Error>),
    G: Fn(W, usize, V) -> (W, Result<(), Error>),

    requires
        crate::steps::in_order(
            filling::<T, V, W, F, G>(convert, store, items),
            items.len(),
            start,
            end,
            outcome,
        ),
    ensures
        fills_in_order::<T, V, W, F, G>(convert, store, items, start, end, outcome),
{
    let step = filling::<T, V, W, F, G>(convert, store, items);
    let states = choose|states: Seq<W>| #[trigger]
        is_path(step, start, states) && match outcome {
            Ok(_) => states.len() == items.len() + 1 && states.last() == end,
            Err(error) => states.len() <= items.len() && step(
                states.len() - 1,
                states.last(),
                end,
                Err(error),
            ),
        };
    assert(states.len() > 0);
    assert forall|i: int| 0 <= i < states.len() - 1 implies #[trigger] stores::<T, V, W, F, G>(
        convert,
        store,
        i as usize,
        items[i],
        states[i],
        states[i + 1],
    ) by {
        assert(step(i, states[i], states[i + 1], Ok(())));
        assert(stored_item::<T, V, W, F, G>(
            convert,
            store,
            i as usize,
            items[i],
            states[i],
            states[i + 1],
            Ok(()),
        ));
    }
    if let Err(error) = outcome {
        assert(stored_item::<T, V, W, F, G>(
            convert,
            store,
            (states.len() - 1) as usize,
            items[states.len() - 1],
            states.last(),
            end,
            Err(error),
        ));
    }
}

/// Items fill an array in order until one fails.
pub proof fn law_arrays_are_filled_in_order<T, V, W, F, G>(
    items: Vec<T>,
    state: W,
    convert: F,
    store: G,
    end: W,
    outcome: Result<(), Error>,
) where
    F: Fn(W, T) -> (W, Result<V, Error>),
    G: Fn(W, usize, V) -> (W, Result<(), Error>),

    requires
        call_ensures(
            fill_array::<T, V, W, F, G>,
            (items, state, convert, store),
            (end, outcome),
        ),
    ensures
        fills_in_order::<T, V, W, F, G>(convert, store, items@, state, end, outcome),
{
    lemma_filled_in_order::<T, V, W, F, G>(convert, store, items@, state, end, outcome);
}

/// An instance is iterated over an array that all of its items fill; where one fails, nothing is
/// iterated.
pub proof fn law_instances_are_iterated_item_by_item<T, V, R, W, F, G, J>(
    items: Vec<T>,
    state: W,
    convert: F,
    store: G,
    iterator: J,
    result: (W, Result<R, Error>),
) where
    F: Fn(W, T) -> (W, Result<V, Error>),
    G: Fn(W, usize, V) -> (W, Result<(), Error>),
    J: FnOnce(W) -> (W, Result<R, Error>),

    requires
        call_ensures(
            iterate::<T, V, R, W, F, G, J>,
            (items, state, convert, store, iterator),
            result,
        ),
    ensures
        (exists|filled: W|
            #![trigger call_ensures(iterator, (filled,), result)]
            fills_in_order::<T, V, W, F, G>(
                convert,
                store,
                items@,
                state,
                filled,
                Ok::<(), Error>(()),
            ) && call_ensures(iterator, (filled,), result)) || (result.1 matches Err(error)
            && fills_in_order::<T, V, W, F, G>(
            convert,
            store,
            items@,
            state,
            result.0,
            Err::<(), Error>(error),
        )),
{
    let (filled, outcome) = choose|filled: W, outcome: Result<(), Error>| #[trigger]
        crate::steps::in_order(
            filling::<T, V, W, F, G>(convert, store, items@),
            items@.len(),
            state,
            filled,
            outcome,
        ) && match outcome {
            Ok(_) => call_ensures(iterator, (filled,), result),
            Err(error) => result == (filled, Err::<R, Error>(error)),
        };
    lemma_filled_in_order::<T, V, W, F, G>(convert, store, items@, state, filled, outcome);
    match outcome {
        Ok(unit) => {
            assert(unit == ());
            assert(call_ensures(iterator, (filled,), result));
        }
        Err(_) => {}
    }
}

/// Bytes survive the way from the guest and back to it; memory that is detached gives none.
pub proof fn law_bytes_come_back<'a, V, F>(
    memory: Option<&'a [u8]>,
    read: Result<bytes::Bytes, Error>,
    create: F,
    written: Result<V, Error>,
) where F: FnOnce(&[u8]) -> Result<V, Error>
    requires
        call_ensures(bytes_from_guest, (memory,), read),
        read matches Ok(bytes) ==> call_ensures(
            bytes_to_guest::<V, F>,
            (&bytes, create),
            written,
        ),
    ensures
        read is Ok <==> memory is Some,
        read matches Err(error) ==> says_conversion(error, "Uint8Array is detached"@),
        memory matches Some(data) ==> exists|copy: &[u8]|
            #![trigger call_ensures(create, (copy,), written)]
            copy@ == data@ && call_ensures(create, (copy,), written),
{
}

/// A nullish value is an optional one without the difference between `null` and `undefined`, and an
/// optional value that is not there is `undefined`.
pub proof fn law_options_and_nullish_values_agree<T>(
    value: Nullish<T>,
    option: Option<T>,
    given: Option<T>,
    nullish: Nullish<T>,
)
    requires
        call_ensures(<Option<T> as From<Nullish<T>>>::from, (value,), option),
        call_ensures(<Nullish<T> as From<Option<T>>>::from, (given,), nullish),
    ensures
        value matches Nullish::Present(own) ==> option == Some(own),
        !(value is Present) ==> option is None,
        given matches Some(own) ==> nullish == Nullish::Present(own),
        given is None ==> nullish is Undefined,
{
}

/// Whether an item could not be fetched, or not be converted.
pub open spec fn fails_to_fetch<T, V, W, G, F>(
    fetch: G,
    convert: F,
    index: usize,
    before: W,
    after: W,
    error: Error,
) -> bool where G: Fn(W, usize) -> (W, Result<V, Error>), F: Fn(W, V) -> (W, Result<T, Error>) {
    ||| call_ensures(fetch, (before, index), (after, Err::<V, Error>(error)))
    ||| exists|between: W, value: V|
        #![trigger call_ensures(fetch, (before, index), (between, Ok::<V, Error>(value)))]
        call_ensures(fetch, (before, index), (between, Ok::<V, Error>(value))) && call_ensures(
            convert,
            (between, value),
            (after, Err::<T, Error>(error)),
        )
}

/// Whether the item at an index was fetched and converted into some item.
pub open spec fn fetches_some<T, V, W, G, F>(
    fetch: G,
    convert: F,
    index: usize,
    before: W,
    after: W,
) -> bool where G: Fn(W, usize) -> (W, Result<V, Error>), F: Fn(W, V) -> (W, Result<T, Error>) {
    exists|item: T| #[trigger]
        fetches(fetch, convert, index, before, after, Ok::<T, Error>(item))
}

/// An array that is not read in full has an item that cannot be fetched or converted: those before
/// it were read in order, none behind it is, and its error is what comes back.
pub proof fn law_arrays_are_read_until_an_item_fails<T, V, W, G, F>(
    count: usize,
    state: W,
    fetch: G,
    convert: F,
    end: W,
    error: Error,
) where G: Fn(W, usize) -> (W, Result<V, Error>), F: Fn(W, V) -> (W, Result<T, Error>)
    requires
        call_ensures(
            vec_from_guest::<T, V, W, G, F>,
            (Some(count), state, fetch, convert),
            (end, Err::<Vec<T>, Error>(error)),
        ),
    ensures
        exists|states: Seq<W>|
            #![trigger states.len()]
            0 < states.len() <= count && states[0] == state && (forall|i: int|
                0 <= i < states.len() - 1 ==> #[trigger] fetches_some::<T, V, W, G, F>(
                    fetch,
                    convert,
                    i as usize,
                    states[i],
                    states[i + 1],
                )) && fails_to_fetch::<T, V, W, G, F>(
                fetch,
                convert,
                (states.len() - 1) as usize,
                states.last(),
                end,
                error,
            ),
{
    let step = fetching::<T, V, W, G, F>(fetch, convert);
    let start = (state, Seq::<T>::empty());
    let (items, ended) = choose|items: Seq<T>, ended: Result<(), Error>| #[trigger]
        crate::steps::in_order(step, count as nat, start, (end, items), ended) && ended == Err::<
            (),
            Error,
        >(error);
    let path = choose|path: Seq<(W, Seq<T>)>| #[trigger]
        is_path(step, start, path) && path.len() <= count && step(
            path.len() - 1,
            path.last(),
            (end, items),
            Err(error),
        );
    let states = Seq::new(path.len(), |i: int| path[i].0);
    assert(states.len() > 0);
    assert forall|i: int| 0 <= i < states.len() - 1 implies #[trigger] fetches_some::<
        T,
        V,
        W,
        G,
        F,
    >(fetch, convert, i as usize, states[i], states[i + 1]) by {
        assert(step(i, path[i], path[i + 1], Ok(())));
        assert(crate::marshal::appended_item(
            fetch,
            convert,
            i as usize,
            path[i],
            path[i + 1],
            Ok(()),
        ));
        let item = choose|item: Result<T, Error>| #[trigger]
            fetched_item(fetch, convert, i as usize, path[i].0, path[i + 1].0, item) && item is Ok;
        assert(fetches(
            fetch,
            convert,
            i as usize,
            states[i],
            states[i + 1],
            Ok::<T, Error>(item->Ok_0),
        ));
    }
    let last = (states.len() - 1) as usize;
    assert(crate::marshal::appended_item(
        fetch,
        convert,
        last,
        path.last(),
        (end, items),
        Err(error),
    ));
    assert(fetched_item(fetch, convert, last, states.last(), end, Err::<T, Error>(error)));
}

} // verus!
