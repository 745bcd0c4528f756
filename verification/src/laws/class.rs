//! Host classes.

use vstd::prelude::*;

use crate::errors::Error;
use crate::host::class::{
    call_accessor, prototype_views, Called, ClassSpec, MethodSpec, PrototypeStep,
    WellKnownSymbol,
};
use crate::host::namespace::{Namespace, Step};
use crate::laws::errors::says_unexpected;

verus! {

/// Every method of a class becomes a property of the prototype, in the order of definition, before
/// anything else.
pub proof fn law_prototype_has_every_method<M, G, W, N>(
    spec: ClassSpec<M, G, W, N>,
    steps: Vec<PrototypeStep<M, G, W>>,
    i: int,
)
    requires
        call_ensures(ClassSpec::<M, G, W, N>::prototype, (spec,), steps),
        0 <= i < spec@.methods.len(),
    ensures
        i < steps@.len(),
        steps@[i] matches PrototypeStep::Method { name, method } && name@ == spec@.methods[i].0
            && method == spec@.methods[i].1,
{
    assert(prototype_views(steps@).len() == steps@.len());
    assert(spec@.method_steps().len() == spec@.methods.len());
    assert(prototype_views(steps@)[i] == steps@[i]@);
}

/// Every symbol method of a class becomes a property of the prototype, in the order of definition,
/// behind everything else.
pub proof fn law_prototype_has_every_symbol<M, G, W, N>(
    spec: ClassSpec<M, G, W, N>,
    steps: Vec<PrototypeStep<M, G, W>>,
    i: int,
)
    requires
        call_ensures(ClassSpec::<M, G, W, N>::prototype, (spec,), steps),
        0 <= i < spec@.symbols.len(),
    ensures
        spec@.symbols.len() <= steps@.len(),
        steps@[steps@.len() - spec@.symbols.len() + i] matches PrototypeStep::Symbol {
            symbol,
            method,
        } && symbol == spec@.symbols[i].0 && method == spec@.symbols[i].1,
{
    assert(prototype_views(steps@).len() == steps@.len());
    assert(spec@.symbol_steps().len() == spec@.symbols.len());
    let at = steps@.len() - spec@.symbols.len() + i;
    assert(prototype_views(steps@)[at] == steps@[at]@);
    assert(spec@.prototype_steps()[at] == spec@.symbol_steps()[i]);
}

/// Every accessor of a class that has a getter or a setter becomes a property of the prototype with
/// its name, getter and setter, whatever methods and symbol methods the class has.
pub proof fn law_prototype_has_every_accessor<M, G, W, N>(
    spec: ClassSpec<M, G, W, N>,
    steps: Vec<PrototypeStep<M, G, W>>,
    i: int,
)
    requires
        call_ensures(ClassSpec::<M, G, W, N>::prototype, (spec,), steps),
        0 <= i < spec@.accessors.len(),
        spec@.accessors[i].1 is Some || spec@.accessors[i].2 is Some,
    ensures
        exists|at: int|
            0 <= at < steps@.len() && (#[trigger] steps@[at] matches PrototypeStep::Accessor {
                name,
                get,
                set,
            } && name@ == spec@.accessors[i].0 && get == spec@.accessors[i].1 && set
                == spec@.accessors[i].2),
{
    let keep = |accessor: (Seq<char>, Option<G>, Option<W>)|
        accessor.1 is Some || accessor.2 is Some;
    let kept = spec@.accessors.filter(keep);
    spec@.accessors.lemma_filter_contains(keep, i);
    let k = choose|k: int| 0 <= k < kept.len() && kept[k] == spec@.accessors[i];
    law_prototype_has_nothing_else(spec, steps, k);
    let at = spec@.methods.len() + k;
    assert(steps@[at] is Accessor);
}

/// Nothing else becomes a property of the prototype: between the methods and the symbol methods
/// stand the accessors that have a getter or a setter, each once and in the order of definition.
pub proof fn law_prototype_has_nothing_else<M, G, W, N>(
    spec: ClassSpec<M, G, W, N>,
    steps: Vec<PrototypeStep<M, G, W>>,
    k: int,
)
    requires
        call_ensures(ClassSpec::<M, G, W, N>::prototype, (spec,), steps),
    ensures
        ({
            let kept = spec@.accessors.filter(
                |accessor: (Seq<char>, Option<G>, Option<W>)|
                    accessor.1 is Some || accessor.2 is Some,
            );
            &&& steps@.len() == spec@.methods.len() + kept.len() + spec@.symbols.len()
            &&& 0 <= k < kept.len() ==> (steps@[spec@.methods.len()
                + k] matches PrototypeStep::Accessor { name, get, set } && (name@, get, set)
                == kept[k])
        }),
{
    let kept = spec@.accessors.filter(
        |accessor: (Seq<char>, Option<G>, Option<W>)| accessor.1 is Some || accessor.2 is Some,
    );
    assert(prototype_views(steps@).len() == steps@.len());
    if 0 <= k < kept.len() {
        let at = spec@.methods.len() + k;
        assert(prototype_views(steps@)[at] == steps@[at]@);
    }
}

/// A method is added behind the others with the borrow and the result that it was defined with, and
/// nothing else changes.
pub proof fn law_methods_are_added<M, G, W, N>(
    first: &mut ClassSpec<M, G, W, N>,
    second: &mut ClassSpec<M, G, W, N>,
    third: &mut ClassSpec<M, G, W, N>,
    fourth: &mut ClassSpec<M, G, W, N>,
    name: &str,
    f: M,
    shared: &mut ClassSpec<M, G, W, N>,
    exclusive: &mut ClassSpec<M, G, W, N>,
    shared_later: &mut ClassSpec<M, G, W, N>,
    exclusive_later: &mut ClassSpec<M, G, W, N>,
)
    requires
        call_ensures(ClassSpec::<M, G, W, N>::method, (first, name, f), shared),
        call_ensures(ClassSpec::<M, G, W, N>::method_mut, (second, name, f), exclusive),
        call_ensures(ClassSpec::<M, G, W, N>::async_method, (third, name, f), shared_later),
        call_ensures(
            ClassSpec::<M, G, W, N>::async_method_mut,
            (fourth, name, f),
            exclusive_later,
        ),
    ensures
        old(shared)@.methods == old(first)@.methods.push((name@, MethodSpec::Ref(f))),
        old(exclusive)@.methods == old(second)@.methods.push((name@, MethodSpec::Mut(f))),
        old(shared_later)@.methods == old(third)@.methods.push((name@, MethodSpec::AsyncRef(f))),
        old(exclusive_later)@.methods
            == old(fourth)@.methods.push((name@, MethodSpec::AsyncMut(f))),
        old(shared)@.accessors == old(first)@.accessors && old(shared)@.symbols
            == old(first)@.symbols
            && old(shared)@.statics == old(first)@.statics,
        old(exclusive)@.accessors == old(second)@.accessors && old(exclusive)@.symbols
            == old(second)@.symbols
            && old(exclusive)@.statics == old(second)@.statics,
        old(shared_later)@.accessors == old(third)@.accessors && old(shared_later)@.symbols
            == old(third)@.symbols
            && old(shared_later)@.statics == old(third)@.statics,
        old(exclusive_later)@.accessors == old(fourth)@.accessors && old(exclusive_later)@.symbols
            == old(fourth)@.symbols && old(exclusive_later)@.statics == old(fourth)@.statics,
        *final(first) == *final(shared),
        *final(second) == *final(exclusive),
        *final(third) == *final(shared_later),
        *final(fourth) == *final(exclusive_later),
{
}

/// An accessor is added behind the others with the getter and the setter that it was defined with,
/// and nothing else changes.
pub proof fn law_accessors_are_added<M, G, W, N>(
    first: &mut ClassSpec<M, G, W, N>,
    second: &mut ClassSpec<M, G, W, N>,
    third: &mut ClassSpec<M, G, W, N>,
    name: &str,
    get: G,
    set: W,
    read: &mut ClassSpec<M, G, W, N>,
    written: &mut ClassSpec<M, G, W, N>,
    both: &mut ClassSpec<M, G, W, N>,
)
    requires
        call_ensures(ClassSpec::<M, G, W, N>::getter, (first, name, get), read),
        call_ensures(ClassSpec::<M, G, W, N>::setter, (second, name, set), written),
        call_ensures(ClassSpec::<M, G, W, N>::accessor, (third, name, get, set), both),
    ensures
        old(read)@.accessors == old(first)@.accessors.push((name@, Some(get), None)),
        old(written)@.accessors == old(second)@.accessors.push((name@, None, Some(set))),
        old(both)@.accessors == old(third)@.accessors.push((name@, Some(get), Some(set))),
        old(read)@.methods == old(first)@.methods && old(read)@.symbols
            == old(first)@.symbols && old(read)@.statics
            == old(first)@.statics,
        old(written)@.methods == old(second)@.methods && old(written)@.symbols
            == old(second)@.symbols
            && old(written)@.statics == old(second)@.statics,
        old(both)@.methods == old(third)@.methods && old(both)@.symbols
            == old(third)@.symbols && old(both)@.statics
            == old(third)@.statics,
        *final(first) == *final(read),
        *final(second) == *final(written),
        *final(third) == *final(both),
{
}

/// A symbol method is added behind the others under its symbol, an iterator under that of
/// iterators, and nothing else changes.
pub proof fn law_symbol_methods_are_added<M, G, W, N>(
    first: &mut ClassSpec<M, G, W, N>,
    second: &mut ClassSpec<M, G, W, N>,
    symbol: WellKnownSymbol,
    f: M,
    named: &mut ClassSpec<M, G, W, N>,
    iterated: &mut ClassSpec<M, G, W, N>,
)
    requires
        call_ensures(ClassSpec::<M, G, W, N>::symbol_method, (first, symbol, f), named),
        call_ensures(ClassSpec::<M, G, W, N>::iterable, (second, f), iterated),
    ensures
        old(named)@.symbols == old(first)@.symbols.push((symbol, MethodSpec::Ref(f))),
        old(iterated)@.symbols
            == old(second)@.symbols.push((WellKnownSymbol::Iterator, MethodSpec::Ref(f))),
        old(named)@.methods == old(first)@.methods && old(named)@.accessors
            == old(first)@.accessors && old(named)@.statics
            == old(first)@.statics,
        old(iterated)@.methods == old(second)@.methods && old(iterated)@.accessors
            == old(second)@.accessors
            && old(iterated)@.statics == old(second)@.statics,
        *final(first) == *final(named),
        *final(second) == *final(iterated),
{
}

/// A new class has no members, and a class without a constructor cannot be exported. One with a
/// constructor is exported with it, and its statics become what the same members of a namespace
/// become.
pub proof fn law_class_is_exported_with_its_statics<M, G, W, C, V, S, K>(
    fresh: ClassSpec<M, G, W, Namespace<C, V, S>>,
    spec: ClassSpec<M, G, W, Namespace<C, V, S>>,
    constructor: Option<K>,
    exported: Result<(K, Vec<Step<C, V, S>>), Error>,
    statics: Namespace<C, V, S>,
    steps: Vec<Step<C, V, S>>,
    i: int,
)
    requires
        call_ensures(ClassSpec::<M, G, W, Namespace<C, V, S>>::new, (), fresh),
        call_ensures(
            ClassSpec::<M, G, W, Namespace<C, V, S>>::export::<K>,
            (spec, constructor),
            exported,
        ),
        statics@ == spec@.statics@,
        call_ensures(Namespace::<C, V, S>::apply, (statics,), steps),
    ensures
        fresh@.methods.len() == 0,
        fresh@.accessors.len() == 0,
        fresh@.symbols.len() == 0,
        fresh@.statics@.len() == 0,
        exported is Ok <==> constructor is Some,
        exported matches Err(error) ==> says_unexpected(error, "host class has no constructor"@),
        exported matches Ok(given) ==> Some(given.0) == constructor && given.1@.len()
            == steps@.len() && (0 <= i < steps@.len() ==> given.1@[i]@ == steps@[i]@),
{
    if exported is Ok {
        let given = exported->Ok_0.1@;
        let views = crate::host::namespace::step_views(given);
        assert(views == crate::host::namespace::step_views(steps@));
        assert(views.len() == given.len());
        assert(views.len() == steps@.len());
        if 0 <= i < steps@.len() {
            assert(views[i] == given[i]@);
            assert(views[i] == steps@[i]@);
        }
    }
}

/// A method runs on a borrowed instance and returns its value, or throws the text of its error. An
/// instance that cannot be borrowed never runs it: the call fails with the engine's error, or
/// rejects with its text where it gives a promise.
pub proof fn law_methods_run_on_borrowed_instances<M, B, V, F>(
    method: &MethodSpec<M>,
    borrowed: Result<B, rquickjs::Error>,
    run: F,
    called: Called<V>,
    body: M,
) where F: FnOnce(&M, B) -> Result<V, Error>
    requires
        call_ensures(MethodSpec::<M>::call::<B, V, F>, (method, borrowed, run), called),
        *method == MethodSpec::Ref(body) || *method == MethodSpec::Mut(body) || *method
            == MethodSpec::AsyncRef(body) || *method == MethodSpec::AsyncMut(body),
    ensures
        borrowed matches Ok(instance) ==> match called {
            Called::Return(value) => call_ensures(run, (&body, instance), Ok::<V, Error>(value)),
            Called::Throw(message) => exists|error: Error|
                #![trigger call_ensures(run, (&body, instance), Err::<V, Error>(error))]
                call_ensures(run, (&body, instance), Err::<V, Error>(error)) && error.reads_as(
                    message@,
                ),
            Called::Fail(_) => false,
        },
        borrowed matches Err(error) ==> match *method {
            MethodSpec::Ref(_) | MethodSpec::Mut(_) => called == Called::<V>::Fail(error),
            MethodSpec::AsyncRef(_) | MethodSpec::AsyncMut(_) => called is Throw,
        },
{
}

/// An accessor runs on a borrowed instance and returns its value, or throws the text of its error.
/// An instance that cannot be borrowed fails the call.
pub proof fn law_accessors_run_on_borrowed_instances<B, V, F>(
    borrowed: Result<B, rquickjs::Error>,
    run: F,
    called: Called<V>,
) where F: FnOnce(B) -> Result<V, Error>
    requires
        call_ensures(call_accessor::<B, V, F>, (borrowed, run), called),
    ensures
        borrowed matches Ok(instance) ==> match called {
            Called::Return(value) => call_ensures(run, (instance,), Ok::<V, Error>(value)),
            Called::Throw(message) => exists|error: Error|
                #![trigger call_ensures(run, (instance,), Err::<V, Error>(error))]
                call_ensures(run, (instance,), Err::<V, Error>(error)) && error.reads_as(message@),
            Called::Fail(_) => false,
        },
        borrowed matches Err(error) ==> called == Called::<V>::Fail(error),
{
}

/// The kinds of methods differ in the borrow of the instance and in whether a call gives a promise.
pub proof fn law_method_kinds_are_told_apart<M>(
    method: &MethodSpec<M>,
    exclusive: bool,
    later: bool,
)
    requires
        call_ensures(MethodSpec::<M>::is_exclusive, (method,), exclusive),
        call_ensures(MethodSpec::<M>::is_async, (method,), later),
    ensures
        *method is Ref <==> !exclusive && !later,
        *method is Mut <==> exclusive && !later,
        *method is AsyncRef <==> !exclusive && later,
        *method is AsyncMut <==> exclusive && later,
{
}

/// The static members of a class are those that its builder leaves, and nothing else of the class
/// changes.
pub proof fn law_statics_are_what_their_builder_leaves<M, G, W, N, F: FnOnce(&mut N)>(
    spec: &mut ClassSpec<M, G, W, N>,
    build: F,
    next: &mut ClassSpec<M, G, W, N>,
)
    requires
        call_ensures(ClassSpec::<M, G, W, N>::statics::<F>, (spec, build), next),
    ensures
        exists|statics: &mut N|
            #![trigger call_ensures(build, (statics,), ())]
            call_ensures(build, (statics,), ()) && *statics == old(spec)@.statics
                && *final(statics) == old(next)@.statics,
        old(next)@.methods == old(spec)@.methods,
        old(next)@.accessors == old(spec)@.accessors,
        old(next)@.symbols == old(spec)@.symbols,
        *final(spec) == *final(next),
{
}

} // verus!
