//! Host members, objects, functions and their arguments.

use vstd::prelude::*;

use crate::errors::Error;
use crate::host::args::Args;
use crate::host::callable::{CallableBody, Completion, HostFn};
use crate::host::class::HostClass;
use crate::host::deferred::Deferred;
use crate::host::module::Exports;
use crate::host::namespace::{
    lemma_member_view, member_view, performing, planned, planned_member, step_views, Export,
        Member, MemberView,
    Namespace, Step,
};
use crate::host::object::HostObject;
use crate::laws::errors::{says_conversion, says_unexpected};
use crate::steps::is_path;
use crate::text::decimal;

verus! {

/// Whether two steps do the same.
pub open spec fn same_step<C, V, S>(one: Step<C, V, S>, other: Step<C, V, S>) -> bool {
    match (one, other) {
        (Step::Function { name, body }, Step::Function { name: given, body: kept }) => name@
            == given@ && body == kept,
        (
            Step::Value { name, value, writable },
            Step::Value { name: given, value: kept, writable: writes },
        ) => name@ == given@ && value == kept && writable == writes,
        (
            Step::Accessor { name, get, set },
            Step::Accessor { name: given, get: getter, set: setter },
        ) => name@ == given@ && get == getter && set == setter,
        (Step::Open, Step::Open) => true,
        (Step::Close { name }, Step::Close { name: given }) => name@ == given@,
        _ => false,
    }
}

proof fn lemma_step_views<C, V, S>(steps: Seq<Step<C, V, S>>)
    ensures
        step_views(steps).len() == steps.len(),
        forall|i: int| 0 <= i < steps.len() ==> step_views(steps)[i] == (#[trigger] steps[i])@,
{
}

/// A member is defined behind the others under its name and with what it was defined with: a
/// function that returns at once, one that returns a promise, a read-only value or a writable one.
pub proof fn law_values_and_functions_are_defined<C, V, S>(
    first: &mut Namespace<C, V, S>,
    second: &mut Namespace<C, V, S>,
    third: &mut Namespace<C, V, S>,
    fourth: &mut Namespace<C, V, S>,
    name: &str,
    f: C,
    value: V,
    now: &mut Namespace<C, V, S>,
    later: &mut Namespace<C, V, S>,
    constant: &mut Namespace<C, V, S>,
    property: &mut Namespace<C, V, S>,
)
    requires
        call_ensures(Namespace::<C, V, S>::function, (first, name, f), now),
        call_ensures(Namespace::<C, V, S>::async_function, (second, name, f), later),
        call_ensures(Namespace::<C, V, S>::constant, (third, name, value), constant),
        call_ensures(Namespace::<C, V, S>::property, (fourth, name, value), property),
    ensures
        old(now)@ == old(first)@.push((name@, MemberView::Callable(CallableBody::Sync(f)))),
        old(later)@ == old(second)@.push((name@, MemberView::Callable(CallableBody::Async(f)))),
        old(constant)@ == old(third)@.push((name@, MemberView::Constant(value))),
        old(property)@ == old(fourth)@.push((name@, MemberView::Property(value))),
        *final(first) == *final(now),
        *final(second) == *final(later),
        *final(third) == *final(constant),
        *final(fourth) == *final(property),
{
}

/// An accessor is defined behind the other members under its name, with the getter and the setter
/// that it was defined with; a class is a read-only value under the name of the class.
pub proof fn law_accessors_and_classes_are_defined<C, V, S, K: HostClass>(
    first: &mut Namespace<C, V, S>,
    second: &mut Namespace<C, V, S>,
    third: &mut Namespace<C, V, S>,
    fourth: &mut Namespace<C, V, S>,
    name: &str,
    get: V,
    set: S,
    export: V,
    read: &mut Namespace<C, V, S>,
    written: &mut Namespace<C, V, S>,
    both: &mut Namespace<C, V, S>,
    class: &mut Namespace<C, V, S>,
)
    requires
        call_ensures(Namespace::<C, V, S>::getter, (first, name, get), read),
        call_ensures(Namespace::<C, V, S>::setter, (second, name, set), written),
        call_ensures(Namespace::<C, V, S>::accessor, (third, name, get, set), both),
        call_ensures(Namespace::<C, V, S>::class::<K>, (fourth, export), class),
    ensures
        old(read)@ == old(first)@.push(
            (name@, MemberView::Accessor { get: Some(get), set: None }),
        ),
        old(written)@ == old(second)@.push(
            (name@, MemberView::Accessor { get: None, set: Some(set) }),
        ),
        old(both)@ == old(third)@.push(
            (name@, MemberView::Accessor { get: Some(get), set: Some(set) }),
        ),
        old(class)@ == old(fourth)@.push((K::NAME@, MemberView::Constant(export))),
        *final(first) == *final(read),
        *final(second) == *final(written),
        *final(third) == *final(both),
        *final(fourth) == *final(class),
{
}

/// A namespace starts empty, and its names are those of its members, in order.
pub proof fn law_names_are_those_of_the_members<C, V, S>(
    fresh: Namespace<C, V, S>,
    namespace: &Namespace<C, V, S>,
    names: Vec<String>,
    i: int,
)
    requires
        call_ensures(Namespace::<C, V, S>::new, (), fresh),
        call_ensures(Namespace::<C, V, S>::names, (namespace,), names),
    ensures
        fresh@.len() == 0,
        names@.len() == namespace@.len(),
        0 <= i < names@.len() ==> names@[i]@ == namespace@[i].0,
{
    let texts = crate::native::module::texts(names@);
    assert(texts.len() == names@.len());
    if 0 <= i < names@.len() {
        assert(texts[i] == names@[i]@);
        assert(texts[i] == namespace@[i].0);
    }
}

/// A namespace without members takes no steps, and one more member adds its own steps behind those
/// of the others: one step that defines it, nothing for an accessor without getter and setter, and
/// for a nested object its creation, its own members and its attachment.
pub proof fn law_each_member_adds_its_steps<C, V, S>(
    namespace: Namespace<C, V, S>,
    steps: Vec<Step<C, V, S>>,
    longer: Namespace<C, V, S>,
    more: Vec<Step<C, V, S>>,
    name: Seq<char>,
    member: MemberView<C, V, S>,
    inner: Namespace<C, V, S>,
    inner_steps: Vec<Step<C, V, S>>,
    i: int,
)
    requires
        call_ensures(Namespace::<C, V, S>::apply, (namespace,), steps),
        call_ensures(Namespace::<C, V, S>::apply, (longer,), more),
        longer@ == namespace@.push((name, member)),
        call_ensures(Namespace::<C, V, S>::apply, (inner,), inner_steps),
        member matches MemberView::Object(nested) ==> inner@ == nested,
    ensures
        namespace@.len() == 0 ==> steps@.len() == 0,
        more@.len() >= steps@.len(),
        0 <= i < steps@.len() ==> same_step(more@[i], steps@[i]),
        member matches MemberView::Callable(body) ==> more@.len() == steps@.len() + 1 && (
        more@.last() matches Step::Function { name: given, body: kept } && given@ == name && kept
            == body),
        member matches MemberView::Constant(value) ==> more@.len() == steps@.len() + 1 && (
        more@.last() matches Step::Value { name: given, value: kept, writable } && given@ == name
            && kept == value && !writable),
        member matches MemberView::Property(value) ==> more@.len() == steps@.len() + 1 && (
        more@.last() matches Step::Value { name: given, value: kept, writable } && given@ == name
            && kept == value && writable),
        member matches MemberView::Accessor { get, set } ==> (if get is Some || set is Some {
            more@.len() == steps@.len() + 1 && (more@.last() matches Step::Accessor {
                name: given,
                get: getter,
                set: setter,
            } && given@ == name && getter == get && setter == set)
        } else {
            more@.len() == steps@.len()
        }),
        member is Object ==> more@.len() == steps@.len() + inner_steps@.len() + 2
            && more@[steps@.len() as int] is Open && (more@.last() matches Step::Close {
            name: given,
        } && given@ == name) && (0 <= i < inner_steps@.len() ==> same_step(
            more@[steps@.len() + 1 + i],
            inner_steps@[i],
        )),
{
    lemma_step_views(steps@);
    lemma_step_views(more@);
    lemma_step_views(inner_steps@);
    assert(longer@.drop_last() =~= namespace@);
    assert(planned(longer@) == planned(namespace@) + planned_member(name, member));
    if 0 <= i < steps@.len() {
        assert(more@[i]@ == steps@[i]@);
    }
    assert(step_views(more@).len() == more@.len());
    if more@.len() > 0 {
        assert(step_views(more@)[more@.len() - 1] == more@.last()@);
    }
    if member is Object {
        assert(step_views(more@)[steps@.len() as int] == more@[steps@.len() as int]@);
        if 0 <= i < inner_steps@.len() {
            assert(more@[steps@.len() + 1 + i]@ == inner_steps@[i]@);
        }
    }
}

/// A member on its own takes the steps that it takes in a namespace.
pub proof fn law_member_takes_its_steps_alone<C, V, S>(
    member: Member<C, V, S>,
    name: String,
    steps: Vec<Step<C, V, S>>,
    inner_steps: Vec<Step<C, V, S>>,
    i: int,
)
    requires
        call_ensures(Member::<C, V, S>::apply, (member, name), steps),
        member matches Member::Object(nested) ==> call_ensures(
            Namespace::<C, V, S>::apply,
            (nested,),
            inner_steps,
        ),
    ensures
        member matches Member::Callable(body) ==> steps@.len() == 1 && (
        steps@[0] matches Step::Function { name: given, body: kept } && given@ == name@ && kept
            == body),
        member matches Member::Constant(value) ==> steps@.len() == 1 && (
        steps@[0] matches Step::Value { name: given, value: kept, writable } && given@ == name@
            && kept == value && !writable),
        member matches Member::Property(value) ==> steps@.len() == 1 && (
        steps@[0] matches Step::Value { name: given, value: kept, writable } && given@ == name@
            && kept == value && writable),
        member matches Member::Accessor { get, set } ==> (if get is Some || set is Some {
            steps@.len() == 1 && (steps@[0] matches Step::Accessor {
                name: given,
                get: getter,
                set: setter,
            } && given@ == name@ && getter == get && setter == set)
        } else {
            steps@.len() == 0
        }),
        member is Object ==> steps@.len() == inner_steps@.len() + 2 && steps@[0] is Open && (
        steps@.last() matches Step::Close { name: given } && given@ == name@) && (0 <= i
            < inner_steps@.len() ==> same_step(steps@[1 + i], inner_steps@[i])),
{
    lemma_step_views(steps@);
    lemma_step_views(inner_steps@);
    match member {
        Member::Callable(body) => {
            lemma_member_view::<C, V, S>(body, arbitrary(), None, None, arbitrary());
        }
        Member::Constant(value) => {
            lemma_member_view::<C, V, S>(arbitrary(), value, None, None, arbitrary());
        }
        Member::Property(value) => {
            lemma_member_view::<C, V, S>(arbitrary(), value, None, None, arbitrary());
        }
        Member::Accessor { get, set } => {
            lemma_member_view::<C, V, S>(arbitrary(), arbitrary(), get, set, arbitrary());
        }
        Member::Object(nested) => {
            lemma_member_view::<C, V, S>(arbitrary(), arbitrary(), None, None, nested);
            if 0 <= i < inner_steps@.len() {
                assert(steps@[1 + i]@ == inner_steps@[i]@);
            }
        }
    }
    if steps@.len() > 0 {
        assert(step_views(steps@)[0] == steps@[0]@);
        assert(step_views(steps@)[steps@.len() - 1] == steps@.last()@);
    }
}

/// Every member but an accessor is the value of an export: a function itself, a value whether or
/// not it is writable, and a nested object as a fresh object with its members.
pub proof fn law_members_are_exported_as_values<C, V, S>(
    member: Member<C, V, S>,
    exported: Result<Export<C, V, S>, Error>,
    inner_steps: Vec<Step<C, V, S>>,
    i: int,
)
    requires
        call_ensures(Member::<C, V, S>::into_export_value, (member,), exported),
        member matches Member::Object(nested) ==> call_ensures(
            Namespace::<C, V, S>::apply,
            (nested,),
            inner_steps,
        ),
    ensures
        exported is Err <==> member is Accessor,
        exported matches Err(error) ==> says_unexpected(
            error,
            "accessor members are not valid as module exports"@,
        ),
        member matches Member::Callable(body) ==> exported == Ok::<Export<C, V, S>, Error>(
            Export::Function(body),
        ),
        member matches Member::Constant(value) ==> exported == Ok::<Export<C, V, S>, Error>(
            Export::Value(value),
        ),
        member matches Member::Property(value) ==> exported == Ok::<Export<C, V, S>, Error>(
            Export::Value(value),
        ),
        member is Object ==> (exported matches Ok(Export::Object(steps)) && steps@.len()
            == inner_steps@.len() && (0 <= i < steps@.len() ==> same_step(
            steps@[i],
            inner_steps@[i],
        ))),
{
    lemma_step_views(inner_steps@);
    match member {
        Member::Callable(body) => {
            lemma_member_view::<C, V, S>(body, arbitrary(), None, None, arbitrary());
        }
        Member::Constant(value) => {
            lemma_member_view::<C, V, S>(arbitrary(), value, None, None, arbitrary());
        }
        Member::Property(value) => {
            lemma_member_view::<C, V, S>(arbitrary(), value, None, None, arbitrary());
        }
        Member::Accessor { get, set } => {
            lemma_member_view::<C, V, S>(arbitrary(), arbitrary(), get, set, arbitrary());
        }
        Member::Object(nested) => {
            lemma_member_view::<C, V, S>(arbitrary(), arbitrary(), None, None, nested);
            let steps = exported->Ok_0->Object_0;
            lemma_step_views(steps@);
            if 0 <= i < steps@.len() {
                assert(steps@[i]@ == inner_steps@[i]@);
            }
        }
    }
}

/// Steps are carried out in order, each on what the one before it left, until one fails: a success
/// has carried out all of them, and a failure is that of one behind which none was carried out.
pub proof fn law_steps_are_carried_out_in_order<C, V, S, E, W, F>(
    steps: Vec<Step<C, V, S>>,
    state: W,
    execute: F,
    end: W,
    outcome: Result<(), E>,
) where F: Fn(W, Step<C, V, S>) -> (W, Result<(), E>)
    requires
        call_ensures(
            crate::host::namespace::perform::<C, V, S, E, W, F>,
            (steps, state, execute),
            (end, outcome),
        ),
    ensures
        outcome is Ok ==> exists|states: Seq<W>|
            #![trigger states.len()]
            states.len() == steps@.len() + 1 && states[0] == state && states.last() == end
                && forall|i: int|
                0 <= i < steps@.len() ==> #[trigger] call_ensures(
                    execute,
                    (states[i], steps@[i]),
                    (states[i + 1], Ok::<(), E>(())),
                ),
        outcome matches Err(error) ==> exists|states: Seq<W>|
            #![trigger states.len()]
            0 < states.len() <= steps@.len() && states[0] == state && call_ensures(
                execute,
                (states.last(), steps@[states.len() - 1]),
                (end, Err::<(), E>(error)),
            ) && forall|i: int|
                0 <= i < states.len() - 1 ==> #[trigger] call_ensures(
                    execute,
                    (states[i], steps@[i]),
                    (states[i + 1], Ok::<(), E>(())),
                ),
{
    let step = performing(execute, steps@);
    let states = choose|states: Seq<W>| #[trigger]
        is_path(step, state, states) && match outcome {
            Ok(_) => states.len() == steps@.len() + 1 && states.last() == end,
            Err(error) => states.len() <= steps@.len() && step(
                states.len() - 1,
                states.last(),
                end,
                Err(error),
            ),
        };
    assert(states.len() > 0);
    assert forall|i: int| 0 <= i < states.len() - 1 implies #[trigger] call_ensures(
        execute,
        (states[i], steps@[i]),
        (states[i + 1], Ok::<(), E>(())),
    ) by {
        assert(step(i, states[i], states[i + 1], Ok(())));
    }
}

/// A host object becomes what the same members of a namespace become.
pub proof fn law_host_object_is_its_members<C, V, S>(
    object: HostObject<C, V, S>,
    steps: Vec<Step<C, V, S>>,
    namespace: Namespace<C, V, S>,
    other: Vec<Step<C, V, S>>,
    i: int,
)
    requires
        call_ensures(HostObject::<C, V, S>::to_guest, (object,), steps),
        namespace@ == object@,
        call_ensures(Namespace::<C, V, S>::apply, (namespace,), other),
    ensures
        steps@.len() == other@.len(),
        0 <= i < steps@.len() ==> same_step(steps@[i], other@[i]),
{
    lemma_step_views(steps@);
    lemma_step_views(other@);
    if 0 <= i < steps@.len() {
        assert(steps@[i]@ == other@[i]@);
    }
}

/// Exports start empty, the default export is a read-only value under its name, and the members are
/// handed out as they were defined.
pub proof fn law_exports_are_their_members<C, V, S>(
    fresh: Exports<C, V, S>,
    exports: &mut Exports<C, V, S>,
    value: V,
    next: &mut Exports<C, V, S>,
    done: Exports<C, V, S>,
    namespace: Namespace<C, V, S>,
    open: &mut Exports<C, V, S>,
    members: &mut Namespace<C, V, S>,
)
    requires
        call_ensures(Exports::<C, V, S>::new, (), fresh),
        call_ensures(Exports::<C, V, S>::default, (exports, value), next),
        call_ensures(Exports::<C, V, S>::into_namespace, (done,), namespace),
        call_ensures(Exports::<C, V, S>::members, (open,), members),
    ensures
        fresh@.len() == 0,
        old(next)@.len() == old(exports)@.len() + 1,
        old(next)@.drop_last() == old(exports)@,
        old(next)@.last() == ("default"@, MemberView::<C, V, S>::Constant(value)),
        *final(exports) == *final(next),
        namespace@ == done@,
        old(members)@ == old(open)@,
        final(open)@ == final(members)@,
{
    assert(old(next)@.drop_last() =~= old(exports)@);
}

/// A host function returns its value, or throws the text of its error, and is asynchronous exactly
/// where it was made so.
pub proof fn law_calls_end_with_a_value_or_a_throw<C, A, V, F>(
    body: &CallableBody<C>,
    callback: C,
    args: A,
    run: F,
    completion: Completion<V>,
    later: bool,
) where F: FnOnce(&C, A) -> Result<V, Error>
    requires
        call_ensures(CallableBody::<C>::call::<A, V, F>, (body, args, run), completion),
        call_ensures(CallableBody::<C>::is_async, (body,), later),
        *body == CallableBody::Sync(callback) || *body == CallableBody::Async(callback),
    ensures
        later <==> *body == CallableBody::Async(callback),
        completion matches Completion::Return(value) ==> call_ensures(
            run,
            (&callback, args),
            Ok::<V, Error>(value),
        ),
        completion matches Completion::Throw(message) ==> exists|error: Error|
            #![trigger call_ensures(run, (&callback, args), Err::<V, Error>(error))]
            call_ensures(run, (&callback, args), Err::<V, Error>(error)) && error.reads_as(
                message@,
            ),
{
}

/// The end of a call follows from its result alone.
pub proof fn law_completion_follows_the_result<V>(
    result: Result<V, Error>,
    completion: Completion<V>,
)
    requires
        call_ensures(Completion::<V>::of, (result,), completion),
    ensures
        completion is Return <==> result is Ok,
        result matches Ok(value) ==> completion == Completion::Return(value),
        completion matches Completion::Throw(message) ==> result->Err_0.reads_as(message@),
{
}

/// A host function keeps its callback and whether it returns at once or later.
pub proof fn law_host_functions_keep_their_body<C>(
    f: C,
    now: HostFn<C>,
    later: HostFn<C>,
    body: CallableBody<C>,
    later_body: CallableBody<C>,
    sync: CallableBody<C>,
    asynchronous: CallableBody<C>,
)
    requires
        call_ensures(HostFn::<C>::new, (f,), now),
        call_ensures(HostFn::<C>::new_async, (f,), later),
        call_ensures(HostFn::<C>::into_body, (now,), body),
        call_ensures(HostFn::<C>::into_body, (later,), later_body),
        call_ensures(CallableBody::<C>::sync, (f,), sync),
        call_ensures(CallableBody::<C>::asynchronous, (f,), asynchronous),
    ensures
        body == CallableBody::Sync(f),
        later_body == CallableBody::Async(f),
        sync == body,
        asynchronous == later_body,
{
}

/// A deferred value is made in the scope and only then converted; where it cannot be made, its own
/// error is the result.
pub proof fn law_deferred_values_are_made_in_the_scope<F, S, T, V, G>(
    callback: F,
    deferred: Deferred<F>,
    scope: S,
    convert: G,
    result: Result<V, Error>,
) where F: FnOnce(S) -> Result<T, Error>, G: FnOnce(T) -> Result<V, Error>
    requires
        call_ensures(Deferred::<F>::new, (callback,), deferred),
        call_ensures(
            Deferred::<F>::to_guest::<S, T, V, G>,
            (deferred, scope, convert),
            result,
        ),
    ensures
        (exists|value: T|
            #![trigger call_ensures(callback, (scope,), Ok::<T, Error>(value))]
            call_ensures(callback, (scope,), Ok::<T, Error>(value)) && call_ensures(
                convert,
                (value,),
                result,
            )) || (result matches Err(error) && call_ensures(
            callback,
            (scope,),
            Err::<T, Error>(error),
        )),
{
}

/// An argument is handed out by its index, and one that is not there is an error or none.
pub proof fn law_arguments_are_found_by_index<V, T, F>(
    values: Vec<V>,
    args: Args<V>,
    index: usize,
    convert: F,
    needed: Result<T, Error>,
    optional: Result<Option<T>, Error>,
    owned: Result<T, Error>,
    found: Result<&V, Error>,
    length: usize,
    empty: bool,
) where F: Fn(&V) -> Result<T, Error>
    requires
        call_ensures(Args::<V>::new, (values,), args),
        call_ensures(Args::<V>::get::<T, F>, (&args, index, convert), needed),
        call_ensures(Args::<V>::get_opt::<T, F>, (&args, index, convert), optional),
        call_ensures(Args::<V>::get_owned::<T, F>, (&args, index, convert), owned),
        call_ensures(Args::<V>::required, (&args, index), found),
        call_ensures(Args::<V>::len, (&args,), length),
        call_ensures(Args::<V>::is_empty, (&args,), empty),
    ensures
        length == values@.len(),
        empty <==> values@.len() == 0,
        found is Ok <==> index < values@.len(),
        found matches Ok(value) ==> *value == values@[index as int],
        found matches Err(error) ==> says_missing(error, index),
        index < values@.len() ==> call_ensures(convert, (&values@[index as int],), needed)
            && call_ensures(convert, (&values@[index as int],), owned),
        index < values@.len() ==> match optional {
            Ok(Some(value)) => call_ensures(
                convert,
                (&values@[index as int],),
                Ok::<T, Error>(value),
            ),
            Ok(None) => false,
            Err(error) => call_ensures(
                convert,
                (&values@[index as int],),
                Err::<T, Error>(error),
            ),
        },
        index >= values@.len() ==> optional == Ok::<Option<T>, Error>(None) && (needed matches Err(
            error,
        ) && says_missing(error, index)) && (owned matches Err(error)
            && says_missing(error, index)),
{
}

/// Whether an error says that there is no argument at an index.
pub open spec fn says_missing(error: Error, index: usize) -> bool {
    says_conversion(error, "missing host argument at index "@ + decimal(index as nat))
}

/// An argument is borrowed by its index, and one that is not there is an error.
pub proof fn law_arguments_are_borrowed_by_index<V, T, F>(
    args: &Args<V>,
    index: usize,
    convert: F,
    shared: Result<T, Error>,
    exclusive: Result<T, Error>,
) where F: Fn(&V) -> Result<T, Error>
    requires
        call_ensures(Args::<V>::get_borrow::<T, F>, (args, index, convert), shared),
        call_ensures(Args::<V>::get_borrow_mut::<T, F>, (args, index, convert), exclusive),
    ensures
        index < args@.len() ==> call_ensures(convert, (&args@[index as int],), shared)
            && call_ensures(convert, (&args@[index as int],), exclusive),
        index >= args@.len() ==> (shared matches Err(error) && says_missing(error, index)) && (
        exclusive matches Err(error) && says_missing(error, index)),
{
}

/// The arguments from an index on are converted in order, each on what the one before it left: a
/// success has one item for each of them, and none where there are none.
pub proof fn law_rest_of_the_arguments_is_converted_in_order<V, T, W, F>(
    args: &Args<V>,
    index: usize,
    state: W,
    convert: F,
    end: W,
    items: Vec<T>,
) where F: Fn(W, &V) -> (W, Result<T, Error>)
    requires
        call_ensures(
            Args::<V>::get_rest::<T, W, F>,
            (args, index, state, convert),
            (end, Ok::<Vec<T>, Error>(items)),
        ),
    ensures
        items@.len() == (if index < args@.len() {
            args@.len() - index
        } else {
            0
        }),
        exists|states: Seq<W>|
            #![trigger states.len()]
            states.len() == items@.len() + 1 && states[0] == state && states.last() == end
                && forall|i: int|
                0 <= i < items@.len() ==> #[trigger] call_ensures(
                    convert,
                    (states[i], &args@[index + i]),
                    (states[i + 1], Ok::<T, Error>(items@[i])),
                ),
{
    let values = args.rest(index);
    let step = crate::host::args::appending::<V, T, W, F>(convert, values);
    let start = (state, Seq::<T>::empty());
    let path = choose|path: Seq<(W, Seq<T>)>| #[trigger]
        is_path(step, start, path) && path.len() == values.len() + 1 && path.last()
            == (end, items@);
    let states = Seq::new(path.len(), |i: int| path[i].0);
    lemma_collected(step, convert, values, start, path, values.len() as int);
    assert(states.len() == items@.len() + 1);
    assert forall|i: int| 0 <= i < items@.len() implies #[trigger] call_ensures(
        convert,
        (states[i], &args@[index + i]),
        (states[i + 1], Ok::<T, Error>(items@[i])),
    ) by {
        assert(values[i] == args@[index + i]);
        assert(step(i, path[i], path[i + 1], Ok(())));
    }
}

proof fn lemma_collected<V, T, W, F>(
    step: spec_fn(int, (W, Seq<T>), (W, Seq<T>), Result<(), Error>) -> bool,
    convert: F,
    values: Seq<V>,
    start: (W, Seq<T>),
    path: Seq<(W, Seq<T>)>,
    n: int,
) where F: Fn(W, &V) -> (W, Result<T, Error>)
    requires
        step == crate::host::args::appending::<V, T, W, F>(convert, values),
        start.1 == Seq::<T>::empty(),
        is_path(step, start, path),
        path.len() == values.len() + 1,
        0 <= n <= values.len(),
    ensures
        path[n].1.len() == n,
        forall|i: int|
            0 <= i < n ==> call_ensures(
                convert,
                (path[i].0, &values[i]),
                (path[i + 1].0, Ok::<T, Error>(#[trigger] path[n].1[i])),
            ),
    decreases n,
{
    if n > 0 {
        lemma_collected(step, convert, values, start, path, n - 1);
        assert(step(n - 1, path[n - 1], path[n], Ok(())));
        assert(crate::host::args::appended(convert, values[n - 1], path[n - 1], path[n], Ok(())));
    }
}

/// A nested object is defined behind the other members under its name, with the members that its
/// builder adds to none.
pub proof fn law_nested_objects_are_what_their_builder_leaves<
    C,
    V,
    S,
    F: FnOnce(&mut Namespace<C, V, S>),
>(
    namespace: &mut Namespace<C, V, S>,
    name: &str,
    build: F,
    next: &mut Namespace<C, V, S>,
)
    requires
        call_ensures(Namespace::<C, V, S>::object::<F>, (namespace, name, build), next),
    ensures
        old(next)@.len() == old(namespace)@.len() + 1,
        old(next)@.drop_last() == old(namespace)@,
        old(next)@.last().0 == name@,
        exists|nested: &mut Namespace<C, V, S>|
            #![trigger call_ensures(build, (nested,), ())]
            call_ensures(build, (nested,), ()) && nested@.len() == 0 && old(next)@.last().1
                == MemberView::Object(final(nested)@),
        *final(namespace) == *final(next),
{
    assert(old(next)@.drop_last() =~= old(namespace)@);
}

/// A host object has the members that its builder adds to none.
pub proof fn law_host_objects_are_what_their_builder_leaves<
    C,
    V,
    S,
    F: FnOnce(&mut Namespace<C, V, S>),
>(build: F, object: HostObject<C, V, S>)
    requires
        call_ensures(HostObject::<C, V, S>::build::<F>, (build,), object),
    ensures
        exists|namespace: &mut Namespace<C, V, S>|
            #![trigger call_ensures(build, (namespace,), ())]
            call_ensures(build, (namespace,), ()) && namespace@.len() == 0 && object@
                == final(namespace)@,
{
}

/// The members of a namespace are handed out in order, each under its name.
pub proof fn law_members_are_handed_out_in_order<C, V, S>(
    namespace: Namespace<C, V, S>,
    members: Vec<(String, Member<C, V, S>)>,
    i: int,
)
    requires
        call_ensures(Namespace::<C, V, S>::into_members, (namespace,), members),
    ensures
        members@.len() == namespace@.len(),
        0 <= i < members@.len() ==> members@[i].0@ == namespace@[i].0 && member_view(members@[i].1)
            == namespace@[i].1,
{
    crate::host::namespace::lemma_members_view(members@);
}

/// Arguments that are not converted in full have one that cannot be: those before it were converted
/// in order, none behind it is, and its error is what comes back.
pub proof fn law_rest_of_the_arguments_is_converted_until_one_fails<V, T, W, F>(
    args: &Args<V>,
    index: usize,
    state: W,
    convert: F,
    end: W,
    error: Error,
) where F: Fn(W, &V) -> (W, Result<T, Error>)
    requires
        call_ensures(
            Args::<V>::get_rest::<T, W, F>,
            (args, index, state, convert),
            (end, Err::<Vec<T>, Error>(error)),
        ),
    ensures
        exists|states: Seq<W>|
            #![trigger states.len()]
            0 < states.len() && index + states.len() <= args@.len() && states[0] == state && (
            forall|i: int|
                0 <= i < states.len() - 1 ==> #[trigger] converts_some::<V, T, W, F>(
                    convert,
                    args@[index + i],
                    states[i],
                    states[i + 1],
                )) && call_ensures(
                convert,
                (states.last(), &args@[index + states.len() - 1]),
                (end, Err::<T, Error>(error)),
            ),
{
    let values = args.rest(index);
    let step = crate::host::args::appending::<V, T, W, F>(convert, values);
    let start = (state, Seq::<T>::empty());
    let (items, ended) = choose|items: Seq<T>, ended: Result<(), Error>| #[trigger]
        crate::steps::in_order(step, values.len(), start, (end, items), ended) && ended == Err::<
            (),
            Error,
        >(error);
    let path = choose|path: Seq<(W, Seq<T>)>| #[trigger]
        is_path(step, start, path) && path.len() <= values.len() && step(
            path.len() - 1,
            path.last(),
            (end, items),
            Err(error),
        );
    let states = Seq::new(path.len(), |i: int| path[i].0);
    assert(states.len() > 0);
    assert forall|i: int| 0 <= i < states.len() - 1 implies #[trigger] converts_some::<V, T, W, F>(
        convert,
        args@[index + i],
        states[i],
        states[i + 1],
    ) by {
        assert(values[i] == args@[index + i]);
        assert(step(i, path[i], path[i + 1], Ok(())));
        assert(crate::host::args::appended(convert, values[i], path[i], path[i + 1], Ok(())));
        let converted = choose|converted: Result<T, Error>|
            #![trigger call_ensures(convert, (path[i].0, &values[i]), (path[i + 1].0, converted))]
            call_ensures(convert, (path[i].0, &values[i]), (path[i + 1].0, converted))
                && converted is Ok;
        assert(call_ensures(
            convert,
            (states[i], &args@[index + i]),
            (states[i + 1], Ok::<T, Error>(converted->Ok_0)),
        ));
    }
    assert(values[states.len() - 1] == args@[index + states.len() - 1]);
    assert(crate::host::args::appended(
        convert,
        values[states.len() - 1],
        path.last(),
        (end, items),
        Err(error),
    ));
}

/// Whether an argument was converted into some item.
pub open spec fn converts_some<V, T, W, F>(convert: F, value: V, before: W, after: W) -> bool where
    F: Fn(W, &V) -> (W, Result<T, Error>),
 {
    exists|item: T|
        #![trigger call_ensures(convert, (before, &value), (after, Ok::<T, Error>(item)))]
        call_ensures(convert, (before, &value), (after, Ok::<T, Error>(item)))
}

} // verus!
