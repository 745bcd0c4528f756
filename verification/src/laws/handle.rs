//! Handles that belong to a guest or to a scope.

use std::rc::Rc;
use vstd::prelude::*;

use crate::errors::{may_print, Error};
use crate::handle::awaitable::{awaited, may_await, may_take_for_promise, Awaited};
use crate::handle::owned::{Bound, Owned};
use crate::handle::scoped::Scoped;
use crate::laws::errors::says_unexpected;
use crate::marshal::type_of_value;
use crate::runtime::Scope;

verus! {

/// Whether an error is that of a value that cannot be kept, for want of a guest.
pub open spec fn tells_detached(error: Error) -> bool {
    says_unexpected(error, "cannot build an owned guest handle on detached scope"@)
}

/// A handle gives back the value and the guest that it was made from.
pub proof fn law_owned_handles_give_back_their_parts<S, G>(
    value: S,
    context: Rc<G>,
    handle: Owned<S, G>,
    kept: &S,
    guest: &Rc<G>,
    taken: S,
)
    requires
        call_ensures(Owned::<S, G>::new, (value, context), handle),
        call_ensures(Owned::<S, G>::value, (&handle,), kept),
        call_ensures(Owned::<S, G>::context, (&handle,), guest),
        call_ensures(Owned::<S, G>::into_value, (handle,), taken),
    ensures
        *kept == value,
        **guest == *context,
        taken == value,
{
}

/// A handle within a scope gives back the value and the scope that it was made from.
pub proof fn law_bound_handles_give_back_their_parts<V, X, G>(
    value: V,
    scope: Scope<X, G>,
    handle: Bound<V, X, G>,
    own: &V,
    within: &Scope<X, G>,
    taken: V,
)
    requires
        call_ensures(Bound::<V, X, G>::new, (value, scope), handle),
        call_ensures(Bound::<V, X, G>::value, (&handle,), own),
        call_ensures(Bound::<V, X, G>::scope, (&handle,), within),
        call_ensures(Bound::<V, X, G>::into_value, (handle,), taken),
    ensures
        *own == value,
        within@ == scope@,
        taken == value,
{
}

/// A value that was converted is kept beyond a scope exactly where the scope has a guest: what the
/// engine saved of it belongs to that guest. A failed conversion is passed on as it is.
pub proof fn law_converted_values_are_kept_by_the_guest<V, X, S, G, F>(
    scope: &Scope<X, G>,
    converted: Result<V, Error>,
    save: F,
    kept: Result<Owned<S, G>, Error>,
) where F: FnOnce(&X, V) -> S
    requires
        call_ensures(Owned::<S, G>::from_guest::<V, X, F>, (scope, converted, save), kept),
    ensures
        kept is Ok <==> converted is Ok && scope@.1 is Some,
        converted matches Err(error) ==> kept == Err::<Owned<S, G>, Error>(error),
        converted is Ok && scope@.1 is None ==> (kept matches Err(error) && tells_detached(error)),
        kept matches Ok(owned) ==> Some(owned@.1) == scope@.1 && call_ensures(
            save,
            (&scope@.0, converted->Ok_0),
            owned@.0,
        ),
{
}

/// A handle within a scope is kept beyond it exactly where the scope has a guest: what the engine
/// saved of its value belongs to that guest.
pub proof fn law_bound_values_are_kept_by_the_guest<V, X, S, G, F>(
    handle: Bound<V, X, G>,
    save: F,
    kept: Result<Owned<S, G>, Error>,
) where F: FnOnce(&X, V) -> S
    requires
        call_ensures(Bound::<V, X, G>::into_owned::<S, F>, (handle, save), kept),
    ensures
        kept is Ok <==> handle@.1.1 is Some,
        kept matches Ok(owned) ==> Some(owned@.1) == handle@.1.1 && call_ensures(
            save,
            (&handle@.1.0, handle@.0),
            owned@.0,
        ),
        kept matches Err(error) ==> tells_detached(error),
{
}

/// What the engine kept is restored in the scope that it is bound to, or the engine's error comes
/// back.
pub proof fn law_kept_values_are_restored<V, X, S, G, F>(
    handle: Owned<S, G>,
    scope: Scope<X, G>,
    restore: F,
    bound: Result<Bound<V, X, G>, Error>,
) where F: FnOnce(&X, &S) -> Result<V, Error>
    requires
        call_ensures(Owned::<S, G>::bind::<V, X, F>, (&handle, scope, restore), bound),
    ensures
        bound matches Ok(own) ==> own@.1 == scope@ && call_ensures(
            restore,
            (&scope@.0, &handle@.0),
            Ok::<V, Error>(own@.0),
        ),
        bound matches Err(error) ==> call_ensures(
            restore,
            (&scope@.0, &handle@.0),
            Err::<V, Error>(error),
        ),
{
}

/// A value that is kept and bound again in the same scope is the value that it was, where restoring
/// gives back what was saved.
pub proof fn law_kept_values_come_back<V, X, S, G, F, R>(
    value: V,
    scope: Scope<X, G>,
    handle: Bound<V, X, G>,
    save: F,
    owned: Owned<S, G>,
    restore: R,
    bound: Result<Bound<V, X, G>, Error>,
) where F: FnOnce(&X, V) -> S, R: FnOnce(&X, &S) -> Result<V, Error>
    requires
        call_ensures(Bound::<V, X, G>::new, (value, scope), handle),
        call_ensures(
            Bound::<V, X, G>::into_owned::<S, F>,
            (handle, save),
            Ok::<Owned<S, G>, Error>(owned),
        ),
        call_ensures(Owned::<S, G>::bind::<V, X, R>, (&owned, scope, restore), bound),
        forall|ctx: &X, own: V, saved: S, restored: Result<V, Error>|
            #![trigger call_ensures(save, (ctx, own), saved), call_ensures(restore, (ctx,
                &saved), restored)]
            call_ensures(save, (ctx, own), saved) && call_ensures(
                restore,
                (ctx, &saved),
                restored,
            ) ==> restored == Ok::<V, Error>(own),
    ensures
        bound matches Ok(again) && again@ == handle@,
{
    assert(call_ensures(save, (&scope@.0, value), owned@.0));
    if bound is Ok {
        assert(call_ensures(restore, (&scope@.0, &owned@.0), Ok::<V, Error>(bound->Ok_0@.0)));
    } else {
        assert(call_ensures(restore, (&scope@.0, &owned@.0), Err::<V, Error>(bound->Err_0)));
    }
}

/// A scoped value is made by its callback in the scope and then converted; where making it fails,
/// nothing is converted.
pub proof fn law_scoped_values_are_made_and_converted<S, T, V, F, G>(
    callback: F,
    scoped: Scoped<F>,
    scope: S,
    convert: G,
    result: Result<V, Error>,
) where F: FnOnce(S) -> Result<T, Error>, G: FnOnce(T) -> Result<V, Error>
    requires
        call_ensures(Scoped::<F>::new, (callback,), scoped),
        call_ensures(Scoped::<F>::to_guest::<S, T, V, G>, (scoped, scope, convert), result),
    ensures
        (exists|value: T|
            #![trigger call_ensures(callback, (scope,), Ok::<T, Error>(value))]
            call_ensures(callback, (scope,), Ok::<T, Error>(value)) && call_ensures(
                convert,
                (value,),
                result,
            )) || (result matches Err(error) && call_ensures(
            callback,
            (scope,),
            Err::<T, Error>(error),
        )),
{
    let made = choose|made: Result<T, Error>|
        #![trigger call_ensures(callback, (scope,), made)]
        call_ensures(callback, (scope,), made) && match made {
            Ok(value) => call_ensures(convert, (value,), result),
            Err(error) => result == Err::<V, Error>(error),
        };
    if made is Ok {
        assert(call_ensures(callback, (scope,), Ok::<T, Error>(made->Ok_0)));
    } else {
        assert(call_ensures(callback, (scope,), Err::<T, Error>(made->Err_0)));
    }
}

/// A value that is no promise is ready as it is. A promise is waited for as what its conversion
/// gives, or its text is the source of the error.
pub proof fn law_only_promises_are_waited_for<V, P, F>(
    value: V,
    promise: bool,
    convert: F,
    decided: Result<Awaited<V, P>, Error>,
) where F: FnOnce(V) -> Result<P, String>
    requires
        call_ensures(Awaited::<V, P>::of_value::<F>, (value, promise, convert), decided),
    ensures
        !promise ==> decided == Ok::<Awaited<V, P>, Error>(Awaited::Ready(value)),
        promise && decided is Ok ==> (decided matches Ok(Awaited::Pending(pending))
            && call_ensures(convert, (value,), Ok::<P, String>(pending))),
        decided matches Err(error) ==> promise && (error matches Error::Conversion {
            message,
            source,
        } && message@ == "expected a promise"@ && (source matches Some(told) && exists|text: String|
            #![trigger call_ensures(convert, (value,), Err::<P, String>(text))]
            call_ensures(convert, (value,), Err::<P, String>(text)) && told@ == text@)),
{
}

/// A guest value is waited for exactly where it is of the type of promises, as the promise that the
/// engine takes it for. A value that the engine takes for no promise is ready as it is, and one
/// that it takes for a promise is not.
pub proof fn law_guest_promises_are_waited_for<'js>(
    value: rquickjs::Value<'js>,
    decided: Result<Awaited<rquickjs::Value<'js>, rquickjs::Promise<'js>>, Error>,
)
    requires
        call_ensures(awaited, (value,), decided),
    ensures
        type_of_value(value) == "promise"@ ==> (decided matches Ok(Awaited::Pending(promise))
            && may_await(value, Ok::<rquickjs::Promise<'js>, rquickjs::Error>(promise))),
        type_of_value(value) != "promise"@ ==> !(decided matches Ok(Awaited::Pending(_))),
        type_of_value(value) != "promise"@ && type_of_value(value) != "function"@ ==> decided
            == Ok::<Awaited<rquickjs::Value<'js>, rquickjs::Promise<'js>>, Error>(
            Awaited::Ready(value),
        ),
        decided matches Ok(Awaited::Ready(passed)) ==> passed == value && may_take_for_promise(
            value,
            false,
        ),
        !(decided matches Ok(Awaited::Ready(_))) ==> may_take_for_promise(value, true),
{
}

/// A guest value that the engine takes for a promise at first and refuses then is an error, with
/// the text of the engine's error as its source.
pub proof fn law_refused_promises_are_told<'js>(
    value: rquickjs::Value<'js>,
    error: Error,
)
    requires
        call_ensures(
            awaited,
            (value,),
            Err::<Awaited<rquickjs::Value<'js>, rquickjs::Promise<'js>>, Error>(error),
        ),
    ensures
        error matches Error::Conversion { message, source } && message@
            == "expected a promise"@ && (
        source matches Some(told) && exists|refused: rquickjs::Error, text: String|
            #![trigger may_await(value, Err::<rquickjs::Promise<'js>, rquickjs::Error>(refused)),
                may_print(refused, text)]
            may_await(value, Err::<rquickjs::Promise<'js>, rquickjs::Error>(refused)) && may_print(
                refused,
                text,
            ) && told@ == text@),
{
}

} // verus!
