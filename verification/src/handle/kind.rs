//! Conversions of guest values into the kinds of handles.

use vstd::prelude::*;

use crate::errors::Error;
use crate::handle::owned::Owned;
use crate::marshal::type_of_value;
use crate::runtime::{is_detached, Scope};

verus! {

/// A kind of guest value that there are handles to.
#[derive(Clone, Copy, Debug, PartialEq, Eq, Structural)]
pub enum HandleKind {
    /// An object.
    Object,
    /// A function.
    Function,
    /// A class.
    Class,
    /// A promise.
    Promise,
    /// An array.
    Array,
    /// An array buffer.
    ArrayBuffer,
}

impl HandleKind {
    /// Whether the values of a type can be of the kind. Every value of the type is, except that only
    /// some functions are classes and only some objects are array buffers.
    pub open spec fn covers(self, name: Seq<char>) -> bool {
        match self {
            HandleKind::Object | HandleKind::ArrayBuffer => name == "object"@ || name == "array"@
                || name == "function"@ || name == "exception"@ || name == "promise"@ || name
                == "proxy"@,
            HandleKind::Function | HandleKind::Class => name == "function"@,
            HandleKind::Promise => name == "promise"@,
            HandleKind::Array => name == "array"@,
        }
    }

    /// The text of the error of a value that is not of the kind.
    pub open spec fn refusal(self) -> Seq<char> {
        match self {
            HandleKind::Object => "expected an object"@,
            HandleKind::Function => "expected a function"@,
            HandleKind::Class => "expected a class"@,
            HandleKind::Promise => "expected a promise"@,
            HandleKind::Array => "expected an array"@,
            HandleKind::ArrayBuffer => "expected an array buffer"@,
        }
    }

    /// Whether an error is that of a value that is not of the kind.
    pub open spec fn is_refusal(self, error: Error) -> bool {
        error is Conversion && error.details() == Some((self.refusal(), None::<Seq<char>>))
    }

    /// Whether a conversion ended as what the engine found asks for: a value that was found is
    /// passed on, and where none was found the value is refused.
    pub open spec fn decides<V>(self, found: Option<V>, r: Result<V, Error>) -> bool {
        match found {
            Some(value) => r == Ok::<V, Error>(value),
            None => r matches Err(error) && self.is_refusal(error),
        }
    }

    /// Whether a conversion into an owned handle ended as what the engine found asks for: where
    /// none was found the value is refused, and one that was found belongs to the guest of the
    /// scope, without which it cannot be kept.
    pub open spec fn owns<V, S, X, G>(
        self,
        found: Option<V>,
        scope: (X, Option<G>),
        r: Result<Owned<S, G>, Error>,
    ) -> bool {
        match (found, scope.1) {
            (None, _) => r matches Err(error) && self.is_refusal(error),
            (Some(_), Some(parent)) => r matches Ok(owned) && owned@.1 == parent,
            (Some(_), None) => r matches Err(error) && is_detached(error),
        }
    }

    /// Passes on a value that is of the kind. One that is not is an error.
    pub fn expect<V>(&self, found: Option<V>) -> (r: Result<V, Error>)
        ensures
            self.decides(found, r),
    {
        match found {
            Some(value) => Ok(value),
            None => Err(
                Error::conversion(
                    match self {
                        HandleKind::Object => "expected an object",
                        HandleKind::Function => "expected a function",
                        HandleKind::Class => "expected a class",
                        HandleKind::Promise => "expected a promise",
                        HandleKind::Array => "expected an array",
                        HandleKind::ArrayBuffer => "expected an array buffer",
                    },
                ),
            ),
        }
    }
}

/// `rquickjs::Value::into_object`: the value as an object, exactly where its type is one of those
/// that the engine takes for it. That the result is the value itself is left unsaid.
#[verifier::external_body]
fn as_object(value: rquickjs::Value<'_>) -> (r: Option<rquickjs::Object<'_>>)
    ensures
        r is Some <==> HandleKind::Object.covers(type_of_value(value)),
{
    value.into_object()
}

/// Whether the engine may take a value for an object, or for none.
pub closed spec fn may_be_object<'js>(
    value: rquickjs::Value<'js>,
    found: Option<rquickjs::Object<'js>>,
) -> bool {
    call_ensures(as_object, (value,), found)
}

/// Finds the object that a value is.
pub(crate) fn find_object<'js>(value: rquickjs::Value<'js>) -> (r: Option<rquickjs::Object<'js>>)
    ensures
        may_be_object(value, r),
        r is Some <==> HandleKind::Object.covers(type_of_value(value)),
{
    as_object(value)
}

/// Converts a guest value into an object. Any other value is an error.
pub fn object_from_guest<'js>(value: rquickjs::Value<'js>) -> (r: Result<
    rquickjs::Object<'js>,
    Error,
>)
    ensures
        exists|found: Option<rquickjs::Object<'js>>| #[trigger]
            may_be_object(value, found) && HandleKind::Object.decides(found, r),
        r is Ok <==> HandleKind::Object.covers(type_of_value(value)),
{
    let found = as_object(value);
    assert(may_be_object(value, found));
    HandleKind::Object.expect(found)
}

/// `rquickjs::Persistent::save` of an object: what the engine keeps of it beyond a scope. Nothing
/// can be told of that but by restoring it, and nothing is claimed of it.
#[verifier::external_body]
fn save_object<'js>(
    ctx: &rquickjs::Ctx<'js>,
    value: rquickjs::Object<'js>,
) -> rquickjs::Persistent<rquickjs::Object<'static>> {
    rquickjs::Persistent::save(ctx, value)
}

/// Whether the engine may keep an object so.
pub closed spec fn may_keep_object<'js>(
    ctx: rquickjs::Ctx<'js>,
    value: rquickjs::Object<'js>,
    kept: rquickjs::Persistent<rquickjs::Object<'static>>,
) -> bool {
    call_ensures(save_object, (&ctx, value), kept)
}

/// Converts a guest value into an owned handle to an object.
pub fn own_object<'js, G>(scope: &Scope<rquickjs::Ctx<'js>, G>, value: rquickjs::Value<'js>) -> (r:
    Result<Owned<rquickjs::Persistent<rquickjs::Object<'static>>, G>, Error>)
    ensures
        exists|found: Option<rquickjs::Object<'js>>| #[trigger]
            may_be_object(value, found) && (found is Some <==> HandleKind::Object.covers(
                type_of_value(value),
            )) && HandleKind::Object.owns(found, scope@, r) && (r matches Ok(owned)
                ==> may_keep_object(scope@.0, found.unwrap(), owned@.0)),
{
    let converted = object_from_guest(value);
    let ghost found = choose|found: Option<rquickjs::Object<'js>>| #[trigger]
        may_be_object(value, found) && HandleKind::Object.decides(found, converted);
    let r = Owned::from_guest(scope, converted, save_object);
    assert(may_be_object(value, found));
    r
}

/// `rquickjs::Value::into_function`: the value as a function, exactly where its type is one of those
/// that the engine takes for it. That the result is the value itself is left unsaid.
#[verifier::external_body]
fn as_function(value: rquickjs::Value<'_>) -> (r: Option<rquickjs::Function<'_>>)
    ensures
        r is Some <==> HandleKind::Function.covers(type_of_value(value)),
{
    value.into_function()
}

/// Whether the engine may take a value for a function, or for none.
pub closed spec fn may_be_function<'js>(
    value: rquickjs::Value<'js>,
    found: Option<rquickjs::Function<'js>>,
) -> bool {
    call_ensures(as_function, (value,), found)
}

/// Converts a guest value into a function. Any other value is an error.
pub fn function_from_guest<'js>(value: rquickjs::Value<'js>) -> (r: Result<
    rquickjs::Function<'js>,
    Error,
>)
    ensures
        exists|found: Option<rquickjs::Function<'js>>| #[trigger]
            may_be_function(value, found) && HandleKind::Function.decides(found, r),
        r is Ok <==> HandleKind::Function.covers(type_of_value(value)),
{
    let found = as_function(value);
    assert(may_be_function(value, found));
    HandleKind::Function.expect(found)
}

/// `rquickjs::Persistent::save` of a function: what the engine keeps of it beyond a scope. Nothing
/// can be told of that but by restoring it, and nothing is claimed of it.
#[verifier::external_body]
fn save_function<'js>(
    ctx: &rquickjs::Ctx<'js>,
    value: rquickjs::Function<'js>,
) -> rquickjs::Persistent<rquickjs::Function<'static>> {
    rquickjs::Persistent::save(ctx, value)
}

/// Whether the engine may keep a function so.
pub closed spec fn may_keep_function<'js>(
    ctx: rquickjs::Ctx<'js>,
    value: rquickjs::Function<'js>,
    kept: rquickjs::Persistent<rquickjs::Function<'static>>,
) -> bool {
    call_ensures(save_function, (&ctx, value), kept)
}

/// Converts a guest value into an owned handle to a function.
pub fn own_function<'js, G>(scope: &Scope<rquickjs::Ctx<'js>, G>, value: rquickjs::Value<'js>) -> (r:
    Result<Owned<rquickjs::Persistent<rquickjs::Function<'static>>, G>, Error>)
    ensures
        exists|found: Option<rquickjs::Function<'js>>| #[trigger]
            may_be_function(value, found) && (found is Some <==> HandleKind::Function.covers(
                type_of_value(value),
            )) && HandleKind::Function.owns(found, scope@, r) && (r matches Ok(owned)
                ==> may_keep_function(scope@.0, found.unwrap(), owned@.0)),
{
    let converted = function_from_guest(value);
    let ghost found = choose|found: Option<rquickjs::Function<'js>>| #[trigger]
        may_be_function(value, found) && HandleKind::Function.decides(found, converted);
    let r = Owned::from_guest(scope, converted, save_function);
    assert(may_be_function(value, found));
    r
}

/// `rquickjs::Value::into_constructor`: the value as a class, which only a function can be. Which
/// functions are constructors at the moment, only the engine knows. That the result is the value
/// itself is left unsaid.
#[verifier::external_body]
fn as_class(value: rquickjs::Value<'_>) -> (r: Option<rquickjs::Constructor<'_>>)
    ensures
        r is Some ==> HandleKind::Class.covers(type_of_value(value)),
{
    value.into_constructor()
}

/// Whether the engine may take a value for a class, or for none.
pub closed spec fn may_be_class<'js>(
    value: rquickjs::Value<'js>,
    found: Option<rquickjs::Constructor<'js>>,
) -> bool {
    call_ensures(as_class, (value,), found)
}

/// Converts a guest value into a class. Any other value is an error.
pub fn class_from_guest<'js>(value: rquickjs::Value<'js>) -> (r: Result<
    rquickjs::Constructor<'js>,
    Error,
>)
    ensures
        exists|found: Option<rquickjs::Constructor<'js>>| #[trigger]
            may_be_class(value, found) && HandleKind::Class.decides(found, r),
        r is Ok ==> HandleKind::Class.covers(type_of_value(value)),
{
    let found = as_class(value);
    assert(may_be_class(value, found));
    HandleKind::Class.expect(found)
}

/// `rquickjs::Persistent::save` of a class: what the engine keeps of it beyond a scope. Nothing
/// can be told of that but by restoring it, and nothing is claimed of it.
#[verifier::external_body]
fn save_class<'js>(
    ctx: &rquickjs::Ctx<'js>,
    value: rquickjs::Constructor<'js>,
) -> rquickjs::Persistent<rquickjs::Constructor<'static>> {
    rquickjs::Persistent::save(ctx, value)
}

/// Whether the engine may keep a class so.
pub closed spec fn may_keep_class<'js>(
    ctx: rquickjs::Ctx<'js>,
    value: rquickjs::Constructor<'js>,
    kept: rquickjs::Persistent<rquickjs::Constructor<'static>>,
) -> bool {
    call_ensures(save_class, (&ctx, value), kept)
}

/// Converts a guest value into an owned handle to a class.
pub fn own_class<'js, G>(scope: &Scope<rquickjs::Ctx<'js>, G>, value: rquickjs::Value<'js>) -> (r:
    Result<Owned<rquickjs::Persistent<rquickjs::Constructor<'static>>, G>, Error>)
    ensures
        exists|found: Option<rquickjs::Constructor<'js>>| #[trigger]
            may_be_class(value, found) && (found is Some ==> HandleKind::Class.covers(
                type_of_value(value),
            )) && HandleKind::Class.owns(found, scope@, r) && (r matches Ok(owned)
                ==> may_keep_class(scope@.0, found.unwrap(), owned@.0)),
{
    let converted = class_from_guest(value);
    let ghost found = choose|found: Option<rquickjs::Constructor<'js>>| #[trigger]
        may_be_class(value, found) && HandleKind::Class.decides(found, converted);
    let r = Owned::from_guest(scope, converted, save_class);
    assert(may_be_class(value, found));
    r
}

/// `rquickjs::Value::into_promise`: the value as a promise, exactly where its type is one of those
/// that the engine takes for it. That the result is the value itself is left unsaid.
#[verifier::external_body]
fn as_promise(value: rquickjs::Value<'_>) -> (r: Option<rquickjs::Promise<'_>>)
    ensures
        r is Some <==> HandleKind::Promise.covers(type_of_value(value)),
{
    value.into_promise()
}

/// Whether the engine may take a value for a promise, or for none.
pub closed spec fn may_be_promise<'js>(
    value: rquickjs::Value<'js>,
    found: Option<rquickjs::Promise<'js>>,
) -> bool {
    call_ensures(as_promise, (value,), found)
}

/// Converts a guest value into a promise. Any other value is an error.
pub fn promise_from_guest<'js>(value: rquickjs::Value<'js>) -> (r: Result<
    rquickjs::Promise<'js>,
    Error,
>)
    ensures
        exists|found: Option<rquickjs::Promise<'js>>| #[trigger]
            may_be_promise(value, found) && HandleKind::Promise.decides(found, r),
        r is Ok <==> HandleKind::Promise.covers(type_of_value(value)),
{
    let found = as_promise(value);
    assert(may_be_promise(value, found));
    HandleKind::Promise.expect(found)
}

/// `rquickjs::Persistent::save` of a promise: what the engine keeps of it beyond a scope. Nothing
/// can be told of that but by restoring it, and nothing is claimed of it.
#[verifier::external_body]
fn save_promise<'js>(
    ctx: &rquickjs::Ctx<'js>,
    value: rquickjs::Promise<'js>,
) -> rquickjs::Persistent<rquickjs::Promise<'static>> {
    rquickjs::Persistent::save(ctx, value)
}

/// Whether the engine may keep a promise so.
pub closed spec fn may_keep_promise<'js>(
    ctx: rquickjs::Ctx<'js>,
    value: rquickjs::Promise<'js>,
    kept: rquickjs::Persistent<rquickjs::Promise<'static>>,
) -> bool {
    call_ensures(save_promise, (&ctx, value), kept)
}

/// Converts a guest value into an owned handle to a promise.
pub fn own_promise<'js, G>(scope: &Scope<rquickjs::Ctx<'js>, G>, value: rquickjs::Value<'js>) -> (r:
    Result<Owned<rquickjs::Persistent<rquickjs::Promise<'static>>, G>, Error>)
    ensures
        exists|found: Option<rquickjs::Promise<'js>>| #[trigger]
            may_be_promise(value, found) && (found is Some <==> HandleKind::Promise.covers(
                type_of_value(value),
            )) && HandleKind::Promise.owns(found, scope@, r) && (r matches Ok(owned)
                ==> may_keep_promise(scope@.0, found.unwrap(), owned@.0)),
{
    let converted = promise_from_guest(value);
    let ghost found = choose|found: Option<rquickjs::Promise<'js>>| #[trigger]
        may_be_promise(value, found) && HandleKind::Promise.decides(found, converted);
    let r = Owned::from_guest(scope, converted, save_promise);
    assert(may_be_promise(value, found));
    r
}

/// `rquickjs::Value::into_array`: the value as an array, exactly where its type is one of those
/// that the engine takes for it. That the result is the value itself is left unsaid.
#[verifier::external_body]
fn as_array(value: rquickjs::Value<'_>) -> (r: Option<rquickjs::Array<'_>>)
    ensures
        r is Some <==> HandleKind::Array.covers(type_of_value(value)),
{
    value.into_array()
}

/// Whether the engine may take a value for an array, or for none.
pub closed spec fn may_be_array<'js>(
    value: rquickjs::Value<'js>,
    found: Option<rquickjs::Array<'js>>,
) -> bool {
    call_ensures(as_array, (value,), found)
}

/// Converts a guest value into an array. Any other value is an error.
pub fn array_from_guest<'js>(value: rquickjs::Value<'js>) -> (r: Result<
    rquickjs::Array<'js>,
    Error,
>)
    ensures
        exists|found: Option<rquickjs::Array<'js>>| #[trigger]
            may_be_array(value, found) && HandleKind::Array.decides(found, r),
        r is Ok <==> HandleKind::Array.covers(type_of_value(value)),
{
    let found = as_array(value);
    assert(may_be_array(value, found));
    HandleKind::Array.expect(found)
}

/// `rquickjs::Persistent::save` of an array: what the engine keeps of it beyond a scope. Nothing
/// can be told of that but by restoring it, and nothing is claimed of it.
#[verifier::external_body]
fn save_array<'js>(
    ctx: &rquickjs::Ctx<'js>,
    value: rquickjs::Array<'js>,
) -> rquickjs::Persistent<rquickjs::Array<'static>> {
    rquickjs::Persistent::save(ctx, value)
}

/// Whether the engine may keep an array so.
pub closed spec fn may_keep_array<'js>(
    ctx: rquickjs::Ctx<'js>,
    value: rquickjs::Array<'js>,
    kept: rquickjs::Persistent<rquickjs::Array<'static>>,
) -> bool {
    call_ensures(save_array, (&ctx, value), kept)
}

/// Converts a guest value into an owned handle to an array.
pub fn own_array<'js, G>(scope: &Scope<rquickjs::Ctx<'js>, G>, value: rquickjs::Value<'js>) -> (r:
    Result<Owned<rquickjs::Persistent<rquickjs::Array<'static>>, G>, Error>)
    ensures
        exists|found: Option<rquickjs::Array<'js>>| #[trigger]
            may_be_array(value, found) && (found is Some <==> HandleKind::Array.covers(
                type_of_value(value),
            )) && HandleKind::Array.owns(found, scope@, r) && (r matches Ok(owned)
                ==> may_keep_array(scope@.0, found.unwrap(), owned@.0)),
{
    let converted = array_from_guest(value);
    let ghost found = choose|found: Option<rquickjs::Array<'js>>| #[trigger]
        may_be_array(value, found) && HandleKind::Array.decides(found, converted);
    let r = Owned::from_guest(scope, converted, save_array);
    assert(may_be_array(value, found));
    r
}

/// `rquickjs::ArrayBuffer::from_value`: the value as an array buffer, which only an object can be.
/// Which objects are array buffers that the guest has not detached, only the engine knows. That the
/// result is the value itself is left unsaid.
#[verifier::external_body]
fn as_array_buffer(value: rquickjs::Value<'_>) -> (r: Option<rquickjs::ArrayBuffer<'_>>)
    ensures
        r is Some ==> HandleKind::ArrayBuffer.covers(type_of_value(value)),
{
    rquickjs::ArrayBuffer::from_value(value)
}

/// Whether the engine may take a value for an array buffer, or for none.
pub closed spec fn may_be_array_buffer<'js>(
    value: rquickjs::Value<'js>,
    found: Option<rquickjs::ArrayBuffer<'js>>,
) -> bool {
    call_ensures(as_array_buffer, (value,), found)
}

/// Converts a guest value into an array buffer. Any other value is an error.
pub fn array_buffer_from_guest<'js>(value: rquickjs::Value<'js>) -> (r: Result<
    rquickjs::ArrayBuffer<'js>,
    Error,
>)
    ensures
        exists|found: Option<rquickjs::ArrayBuffer<'js>>| #[trigger]
            may_be_array_buffer(value, found) && HandleKind::ArrayBuffer.decides(found, r),
        r is Ok ==> HandleKind::ArrayBuffer.covers(type_of_value(value)),
{
    let found = as_array_buffer(value);
    assert(may_be_array_buffer(value, found));
    HandleKind::ArrayBuffer.expect(found)
}

/// `rquickjs::Persistent::save` of an array buffer: what the engine keeps of it beyond a scope. Nothing
/// can be told of that but by restoring it, and nothing is claimed of it.
#[verifier::external_body]
fn save_array_buffer<'js>(
    ctx: &rquickjs::Ctx<'js>,
    value: rquickjs::ArrayBuffer<'js>,
) -> rquickjs::Persistent<rquickjs::ArrayBuffer<'static>> {
    rquickjs::Persistent::save(ctx, value)
}

/// Whether the engine may keep an array buffer so.
pub closed spec fn may_keep_array_buffer<'js>(
    ctx: rquickjs::Ctx<'js>,
    value: rquickjs::ArrayBuffer<'js>,
    kept: rquickjs::Persistent<rquickjs::ArrayBuffer<'static>>,
) -> bool {
    call_ensures(save_array_buffer, (&ctx, value), kept)
}

/// Converts a guest value into an owned handle to an array buffer.
pub fn own_array_buffer<'js, G>(scope: &Scope<rquickjs::Ctx<'js>, G>, value: rquickjs::Value<'js>) -> (r:
    Result<Owned<rquickjs::Persistent<rquickjs::ArrayBuffer<'static>>, G>, Error>)
    ensures
        exists|found: Option<rquickjs::ArrayBuffer<'js>>| #[trigger]
            may_be_array_buffer(value, found) && (found is Some ==> HandleKind::ArrayBuffer.covers(
                type_of_value(value),
            )) && HandleKind::ArrayBuffer.owns(found, scope@, r) && (r matches Ok(owned)
                ==> may_keep_array_buffer(scope@.0, found.unwrap(), owned@.0)),
{
    let converted = array_buffer_from_guest(value);
    let ghost found = choose|found: Option<rquickjs::ArrayBuffer<'js>>| #[trigger]
        may_be_array_buffer(value, found) && HandleKind::ArrayBuffer.decides(found, converted);
    let r = Owned::from_guest(scope, converted, save_array_buffer);
    assert(may_be_array_buffer(value, found));
    r
}

/// What a guest value is converted into and kept as is what the engine itself takes it for and saves
/// of that, for an object.
proof fn law_object_is_what_the_engine_takes_it_for<'js, G>(
    value: rquickjs::Value<'js>,
    converted: Result<rquickjs::Object<'js>, Error>,
    scope: &Scope<rquickjs::Ctx<'js>, G>,
    kept: Result<Owned<rquickjs::Persistent<rquickjs::Object<'static>>, G>, Error>,
)
    requires
        call_ensures(object_from_guest, (value,), converted),
        call_ensures(own_object::<G>, (scope, value), kept),
    ensures
        converted matches Ok(own) ==> call_ensures(as_object, (value,), Some(own)),
        converted is Err ==> call_ensures(as_object, (value,), None::<rquickjs::Object<'js>>),
        kept matches Ok(owned) ==> exists|own: rquickjs::Object<'js>|
            #![trigger call_ensures(as_object, (value,), Some(own))]
            call_ensures(as_object, (value,), Some(own)) && call_ensures(
                save_object,
                (&scope@.0, own),
                owned@.0,
            ),
{
    if kept is Ok {
        let found = choose|found: Option<rquickjs::Object<'js>>|
            #![trigger may_be_object(value, found)]
            may_be_object(value, found) && found is Some && may_keep_object(
                scope@.0,
                found.unwrap(),
                kept->Ok_0@.0,
            );
        assert(call_ensures(as_object, (value,), Some(found.unwrap())));
    }
}

/// What a guest value is converted into and kept as is what the engine itself takes it for and saves
/// of that, for a function.
proof fn law_function_is_what_the_engine_takes_it_for<'js, G>(
    value: rquickjs::Value<'js>,
    converted: Result<rquickjs::Function<'js>, Error>,
    scope: &Scope<rquickjs::Ctx<'js>, G>,
    kept: Result<Owned<rquickjs::Persistent<rquickjs::Function<'static>>, G>, Error>,
)
    requires
        call_ensures(function_from_guest, (value,), converted),
        call_ensures(own_function::<G>, (scope, value), kept),
    ensures
        converted matches Ok(own) ==> call_ensures(as_function, (value,), Some(own)),
        converted is Err ==> call_ensures(as_function, (value,), None::<rquickjs::Function<'js>>),
        kept matches Ok(owned) ==> exists|own: rquickjs::Function<'js>|
            #![trigger call_ensures(as_function, (value,), Some(own))]
            call_ensures(as_function, (value,), Some(own)) && call_ensures(
                save_function,
                (&scope@.0, own),
                owned@.0,
            ),
{
    if kept is Ok {
        let found = choose|found: Option<rquickjs::Function<'js>>|
            #![trigger may_be_function(value, found)]
            may_be_function(value, found) && found is Some && may_keep_function(
                scope@.0,
                found.unwrap(),
                kept->Ok_0@.0,
            );
        assert(call_ensures(as_function, (value,), Some(found.unwrap())));
    }
}

/// What a guest value is converted into and kept as is what the engine itself takes it for and saves
/// of that, for a class.
proof fn law_class_is_what_the_engine_takes_it_for<'js, G>(
    value: rquickjs::Value<'js>,
    converted: Result<rquickjs::Constructor<'js>, Error>,
    scope: &Scope<rquickjs::Ctx<'js>, G>,
    kept: Result<Owned<rquickjs::Persistent<rquickjs::Constructor<'static>>, G>, Error>,
)
    requires
        call_ensures(class_from_guest, (value,), converted),
        call_ensures(own_class::<G>, (scope, value), kept),
    ensures
        converted matches Ok(own) ==> call_ensures(as_class, (value,), Some(own)),
        converted is Err ==> call_ensures(as_class, (value,), None::<rquickjs::Constructor<'js>>),
        kept matches Ok(owned) ==> exists|own: rquickjs::Constructor<'js>|
            #![trigger call_ensures(as_class, (value,), Some(own))]
            call_ensures(as_class, (value,), Some(own)) && call_ensures(
                save_class,
                (&scope@.0, own),
                owned@.0,
            ),
{
    if kept is Ok {
        let found = choose|found: Option<rquickjs::Constructor<'js>>|
            #![trigger may_be_class(value, found)]
            may_be_class(value, found) && found is Some && may_keep_class(
                scope@.0,
                found.unwrap(),
                kept->Ok_0@.0,
            );
        assert(call_ensures(as_class, (value,), Some(found.unwrap())));
    }
}

/// What a guest value is converted into and kept as is what the engine itself takes it for and saves
/// of that, for a promise.
proof fn law_promise_is_what_the_engine_takes_it_for<'js, G>(
    value: rquickjs::Value<'js>,
    converted: Result<rquickjs::Promise<'js>, Error>,
    scope: &Scope<rquickjs::Ctx<'js>, G>,
    kept: Result<Owned<rquickjs::Persistent<rquickjs::Promise<'static>>, G>, Error>,
)
    requires
        call_ensures(promise_from_guest, (value,), converted),
        call_ensures(own_promise::<G>, (scope, value), kept),
    ensures
        converted matches Ok(own) ==> call_ensures(as_promise, (value,), Some(own)),
        converted is Err ==> call_ensures(as_promise, (value,), None::<rquickjs::Promise<'js>>),
        kept matches Ok(owned) ==> exists|own: rquickjs::Promise<'js>|
            #![trigger call_ensures(as_promise, (value,), Some(own))]
            call_ensures(as_promise, (value,), Some(own)) && call_ensures(
                save_promise,
                (&scope@.0, own),
                owned@.0,
            ),
{
    if kept is Ok {
        let found = choose|found: Option<rquickjs::Promise<'js>>|
            #![trigger may_be_promise(value, found)]
            may_be_promise(value, found) && found is Some && may_keep_promise(
                scope@.0,
                found.unwrap(),
                kept->Ok_0@.0,
            );
        assert(call_ensures(as_promise, (value,), Some(found.unwrap())));
    }
}

/// What a guest value is converted into and kept as is what the engine itself takes it for and saves
/// of that, for an array.
proof fn law_array_is_what_the_engine_takes_it_for<'js, G>(
    value: rquickjs::Value<'js>,
    converted: Result<rquickjs::Array<'js>, Error>,
    scope: &Scope<rquickjs::Ctx<'js>, G>,
    kept: Result<Owned<rquickjs::Persistent<rquickjs::Array<'static>>, G>, Error>,
)
    requires
        call_ensures(array_from_guest, (value,), converted),
        call_ensures(own_array::<G>, (scope, value), kept),
    ensures
        converted matches Ok(own) ==> call_ensures(as_array, (value,), Some(own)),
        converted is Err ==> call_ensures(as_array, (value,), None::<rquickjs::Array<'js>>),
        kept matches Ok(owned) ==> exists|own: rquickjs::Array<'js>|
            #![trigger call_ensures(as_array, (value,), Some(own))]
            call_ensures(as_array, (value,), Some(own)) && call_ensures(
                save_array,
                (&scope@.0, own),
                owned@.0,
            ),
{
    if kept is Ok {
        let found = choose|found: Option<rquickjs::Array<'js>>|
            #![trigger may_be_array(value, found)]
            may_be_array(value, found) && found is Some && may_keep_array(
                scope@.0,
                found.unwrap(),
                kept->Ok_0@.0,
            );
        assert(call_ensures(as_array, (value,), Some(found.unwrap())));
    }
}

/// What a guest value is converted into and kept as is what the engine itself takes it for and saves
/// of that, for an array buffer.
proof fn law_array_buffer_is_what_the_engine_takes_it_for<'js, G>(
    value: rquickjs::Value<'js>,
    converted: Result<rquickjs::ArrayBuffer<'js>, Error>,
    scope: &Scope<rquickjs::Ctx<'js>, G>,
    kept: Result<Owned<rquickjs::Persistent<rquickjs::ArrayBuffer<'static>>, G>, Error>,
)
    requires
        call_ensures(array_buffer_from_guest, (value,), converted),
        call_ensures(own_array_buffer::<G>, (scope, value), kept),
    ensures
        converted matches Ok(own) ==> call_ensures(as_array_buffer, (value,), Some(own)),
        converted is Err ==> call_ensures(as_array_buffer, (value,), None::<rquickjs::ArrayBuffer<'js>>),
        kept matches Ok(owned) ==> exists|own: rquickjs::ArrayBuffer<'js>|
            #![trigger call_ensures(as_array_buffer, (value,), Some(own))]
            call_ensures(as_array_buffer, (value,), Some(own)) && call_ensures(
                save_array_buffer,
                (&scope@.0, own),
                owned@.0,
            ),
{
    if kept is Ok {
        let found = choose|found: Option<rquickjs::ArrayBuffer<'js>>|
            #![trigger may_be_array_buffer(value, found)]
            may_be_array_buffer(value, found) && found is Some && may_keep_array_buffer(
                scope@.0,
                found.unwrap(),
                kept->Ok_0@.0,
            );
        assert(call_ensures(as_array_buffer, (value,), Some(found.unwrap())));
    }
}

} // verus!
