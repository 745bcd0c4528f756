//! Guest values that may be promises.

use vstd::prelude::*;

use crate::errors::{may_print, print_engine_error, Error};
use crate::marshal::type_of_value;

verus! {

/// What is to be done with a guest value before it can be used.
pub enum Awaited<V, P> {
    /// Nothing: it is no promise.
    Ready(V),
    /// It is a promise, whose result is to be waited for.
    Pending(P),
}

/// `rquickjs::Value::is_promise`: whether a value is a promise, which every value of that type is. A
/// promise has no other type, unless the engine was told that it is a constructor.
#[verifier::external_body]
fn is_promise(value: &rquickjs::Value<'_>) -> (r: bool)
    ensures
        type_of_value(*value) == "promise"@ ==> r,
        r ==> type_of_value(*value) == "promise"@ || type_of_value(*value) == "function"@,
{
    value.is_promise()
}

/// `rquickjs::Promise::from_value`: the value as a promise, exactly where its type is that of
/// promises, and otherwise the engine's error. That the result is the value itself is left unsaid.
#[verifier::external_body]
fn promise_of(value: rquickjs::Value<'_>) -> (r: Result<rquickjs::Promise<'_>, rquickjs::Error>)
    ensures
        r is Ok <==> type_of_value(value) == "promise"@,
{
    rquickjs::Promise::from_value(value)
}

/// Whether the engine may answer so when it is asked whether a value is a promise.
pub closed spec fn may_take_for_promise(value: rquickjs::Value<'_>, promise: bool) -> bool {
    call_ensures(is_promise, (&value,), promise)
}

/// Whether the engine may take a value for a promise, or refuse it.
pub closed spec fn may_await<'js>(
    value: rquickjs::Value<'js>,
    found: Result<rquickjs::Promise<'js>, rquickjs::Error>,
) -> bool {
    call_ensures(promise_of, (value,), found)
}

/// Whether an error is that of a value that turned out to be no promise, with the text of the
/// engine's error as its source.
pub open spec fn is_no_promise(refused: rquickjs::Error, error: Error) -> bool {
    exists|text: String| #[trigger]
        may_print(refused, text) && error is Conversion && error.details() == Some(
            ("expected a promise"@, Some(text@)),
        )
}

impl<V, P> Awaited<V, P> {
    /// Decides what is to be done with a value, given whether it is a promise. One that is none is
    /// passed on; the engine's error is the source of that of a promise that it does not accept.
    pub fn of_value<F>(value: V, promise: bool, convert: F) -> (r: Result<Self, Error>) where
        F: FnOnce(V) -> Result<P, String>,

        requires
            promise ==> call_requires(convert, (value,)),
        ensures
            !promise ==> r == Ok::<Self, Error>(Awaited::Ready(value)),
            promise ==> match r {
                Ok(Awaited::Pending(converted)) => call_ensures(
                    convert,
                    (value,),
                    Ok::<P, String>(converted),
                ),
                Ok(Awaited::Ready(_)) => false,
                Err(error) => exists|text: String|
                    #![trigger call_ensures(convert, (value,), Err::<P, String>(text))]
                    call_ensures(convert, (value,), Err::<P, String>(text)) && error is Conversion
                        && error.details() == Some(("expected a promise"@, Some(text@))),
            },
    {
        if !promise {
            return Ok(Awaited::Ready(value));
        }
        let converted = convert(value);
        match converted {
            Ok(promise) => Ok(Awaited::Pending(promise)),
            Err(text) => Err(Error::sourced_conversion("expected a promise", Some(text))),
        }
    }
}

/// Decides what is to be done with a guest value, by what the engine answers when it is asked whether
/// the value is a promise: one that is none is passed on, and any other is waited for, or is an error
/// where the engine then refuses it.
pub fn awaited<'js>(value: rquickjs::Value<'js>) -> (r: Result<
    Awaited<rquickjs::Value<'js>, rquickjs::Promise<'js>>,
    Error,
>)
    ensures
        exists|promise: bool| #[trigger]
            may_take_for_promise(value, promise) && if promise {
                !(r matches Ok(Awaited::Ready(_)))
            } else {
                r == Ok::<Awaited<rquickjs::Value<'js>, rquickjs::Promise<'js>>, Error>(
                    Awaited::Ready(value),
                )
            },
        r matches Ok(Awaited::Pending(_)) <==> type_of_value(value) == "promise"@,
        r matches Ok(Awaited::Pending(promise)) ==> may_await(value, Ok(promise)),
        type_of_value(value) != "promise"@ && type_of_value(value) != "function"@ ==> r is Ok,
        r matches Ok(Awaited::Ready(passed)) ==> passed == value,
        r matches Err(error) ==> exists|refused: rquickjs::Error| #[trigger]
            may_await(value, Err(refused)) && is_no_promise(refused, error),
{
    let promise = is_promise(&value);
    assert(may_take_for_promise(value, promise));
    if !promise {
        return Ok(Awaited::Ready(value));
    }
    let found = promise_of(value);
    assert(may_await(value, found));
    match found {
        Ok(promise) => Ok(Awaited::Pending(promise)),
        Err(error) => {
            let text = print_engine_error(&error);
            Err(Error::sourced_conversion("expected a promise", Some(text)))
        }
    }
}

/// Whether a value is waited for is what the engine answers, and the promise is the one that the
/// engine takes the value for.
proof fn law_promises_are_what_the_engine_takes_them_for<'js>(
    value: rquickjs::Value<'js>,
    decided: Result<Awaited<rquickjs::Value<'js>, rquickjs::Promise<'js>>, Error>,
)
    requires
        call_ensures(awaited, (value,), decided),
    ensures
        decided matches Ok(Awaited::Ready(_)) ==> call_ensures(is_promise, (&value,), false),
        decided matches Ok(Awaited::Pending(promise)) ==> call_ensures(
            promise_of,
            (value,),
            Ok::<rquickjs::Promise<'js>, rquickjs::Error>(promise),
        ),
        decided is Err ==> exists|refused: rquickjs::Error| #[trigger]
            call_ensures(
                promise_of,
                (value,),
                Err::<rquickjs::Promise<'js>, rquickjs::Error>(refused),
            ),
{
    if decided is Err {
        let refused = choose|refused: rquickjs::Error| #[trigger]
            may_await(value, Err(refused)) && is_no_promise(refused, decided->Err_0);
        assert(call_ensures(
            promise_of,
            (value,),
            Err::<rquickjs::Promise<'js>, rquickjs::Error>(refused),
        ));
    }
}

} // verus!
