//! Guest values as the kinds of handles.

use vstd::prelude::*;

use crate::errors::Error;
use crate::handle::kind::{
    array_buffer_from_guest, array_from_guest, class_from_guest, function_from_guest,
    may_be_array, may_be_array_buffer, may_be_class, may_be_function, may_be_object,
    may_be_promise, may_keep_array, may_keep_array_buffer, may_keep_class, may_keep_function,
    may_keep_object, may_keep_promise, object_from_guest, own_array, own_array_buffer,
    own_class, own_function, own_object, own_promise, promise_from_guest, HandleKind,
};
use crate::handle::owned::Owned;
use crate::laws::errors::says_conversion;
use crate::laws::handle::tells_detached;
use crate::marshal::type_of_value;
use crate::runtime::Scope;

verus! {

/// Whether a type is that of a value that is an object.
pub open spec fn is_object_type(name: Seq<char>) -> bool {
    name == "object"@ || name == "array"@ || name == "function"@ || name == "exception"@ || name
        == "promise"@ || name == "proxy"@
}

/// A value that the engine found is passed on, and where it found none, the error says what was
/// expected.
pub proof fn law_expected_values_are_passed_on<V>(
    kind: HandleKind,
    found: Option<V>,
    expected: Result<V, Error>,
)
    requires
        call_ensures(HandleKind::expect::<V>, (&kind, found), expected),
    ensures
        found matches Some(value) ==> expected == Ok::<V, Error>(value),
        found is None ==> (expected matches Err(error) && (match kind {
            HandleKind::Object => says_conversion(error, "expected an object"@),
            HandleKind::Function => says_conversion(error, "expected a function"@),
            HandleKind::Class => says_conversion(error, "expected a class"@),
            HandleKind::Promise => says_conversion(error, "expected a promise"@),
            HandleKind::Array => says_conversion(error, "expected an array"@),
            HandleKind::ArrayBuffer => says_conversion(error, "expected an array buffer"@),
        })),
{
}

/// A guest value is converted into an object exactly where it is of the type of one, as what the
/// engine takes it for. Any other is told that one was expected.
pub proof fn law_objects_are_converted<'js>(
    value: rquickjs::Value<'js>,
    converted: Result<rquickjs::Object<'js>, Error>,
)
    requires
        call_ensures(object_from_guest, (value,), converted),
    ensures
        converted is Ok <==> is_object_type(type_of_value(value)),
        converted matches Ok(own) ==> may_be_object(value, Some(own)),
        converted matches Err(error) ==> says_conversion(error, "expected an object"@)
            && may_be_object(value, None),
{
}

/// A guest value is kept as an object exactly where it is of the type of one and the scope has a
/// guest, to which it belongs then. Where it is not of the type, that is what is told.
pub proof fn law_objects_are_kept<'js, G>(
    scope: &Scope<rquickjs::Ctx<'js>, G>,
    value: rquickjs::Value<'js>,
    kept: Result<Owned<rquickjs::Persistent<rquickjs::Object<'static>>, G>, Error>,
)
    requires
        call_ensures(own_object::<G>, (scope, value), kept),
    ensures
        kept is Ok <==> is_object_type(type_of_value(value)) && scope@.1 is Some,
        kept matches Ok(owned) ==> Some(owned@.1) == scope@.1 && exists|own: rquickjs::Object<'js>|
            #![trigger may_be_object(value, Some(own))]
            may_be_object(value, Some(own)) && may_keep_object(scope@.0, own, owned@.0),
        !(is_object_type(type_of_value(value))) ==> (kept matches Err(error)
            && says_conversion(error, "expected an object"@)),
        is_object_type(type_of_value(value)) && scope@.1 is None ==> (kept matches Err(error)
            && tells_detached(error)),
{
    let found = choose|found: Option<rquickjs::Object<'js>>|
        #![trigger may_be_object(value, found)]
        may_be_object(value, found) && (found is Some
            <==> is_object_type(type_of_value(value))) && (match (found, scope@.1) {
            (None, _) => kept matches Err(error) && says_conversion(error, "expected an object"@),
            (Some(_), Some(parent)) => kept matches Ok(owned) && owned@.1 == parent,
            (Some(_), None) => kept matches Err(error) && tells_detached(error),
        }) && (kept matches Ok(owned) ==> may_keep_object(scope@.0, found.unwrap(), owned@.0));
    if found is Some {
        assert(may_be_object(value, Some(found.unwrap())));
    }
}

/// A guest value is converted into a function exactly where it is of the type of one, as what the
/// engine takes it for. Any other is told that one was expected.
pub proof fn law_functions_are_converted<'js>(
    value: rquickjs::Value<'js>,
    converted: Result<rquickjs::Function<'js>, Error>,
)
    requires
        call_ensures(function_from_guest, (value,), converted),
    ensures
        converted is Ok <==> type_of_value(value) == "function"@,
        converted matches Ok(own) ==> may_be_function(value, Some(own)),
        converted matches Err(error) ==> says_conversion(error, "expected a function"@)
            && may_be_function(value, None),
{
}

/// A guest value is kept as a function exactly where it is of the type of one and the scope has a
/// guest, to which it belongs then. Where it is not of the type, that is what is told.
pub proof fn law_functions_are_kept<'js, G>(
    scope: &Scope<rquickjs::Ctx<'js>, G>,
    value: rquickjs::Value<'js>,
    kept: Result<Owned<rquickjs::Persistent<rquickjs::Function<'static>>, G>, Error>,
)
    requires
        call_ensures(own_function::<G>, (scope, value), kept),
    ensures
        kept is Ok <==> type_of_value(value) == "function"@ && scope@.1 is Some,
        kept matches Ok(owned) ==> Some(owned@.1) == scope@.1
            && exists|own: rquickjs::Function<'js>|
            #![trigger may_be_function(value, Some(own))]
            may_be_function(value, Some(own)) && may_keep_function(scope@.0, own, owned@.0),
        !(type_of_value(value) == "function"@) ==> (kept matches Err(error)
            && says_conversion(error, "expected a function"@)),
        type_of_value(value) == "function"@ && scope@.1 is None ==> (kept matches Err(error)
            && tells_detached(error)),
{
    let found = choose|found: Option<rquickjs::Function<'js>>|
        #![trigger may_be_function(value, found)]
        may_be_function(value, found) && (found is Some <==> type_of_value(value)
            == "function"@) && (match (found, scope@.1) {
            (None, _) => kept matches Err(error) && says_conversion(error, "expected a function"@),
            (Some(_), Some(parent)) => kept matches Ok(owned) && owned@.1 == parent,
            (Some(_), None) => kept matches Err(error) && tells_detached(error),
        }) && (kept matches Ok(owned) ==> may_keep_function(scope@.0, found.unwrap(), owned@.0));
    if found is Some {
        assert(may_be_function(value, Some(found.unwrap())));
    }
}

/// Only a guest value that is a function is converted into a class, as what the engine takes it
/// for. One that the engine takes for none is told that one was expected.
pub proof fn law_classes_are_converted<'js>(
    value: rquickjs::Value<'js>,
    converted: Result<rquickjs::Constructor<'js>, Error>,
)
    requires
        call_ensures(class_from_guest, (value,), converted),
    ensures
        converted is Ok ==> type_of_value(value) == "function"@,
        converted matches Ok(own) ==> may_be_class(value, Some(own)),
        converted matches Err(error) ==> says_conversion(error, "expected a class"@)
            && may_be_class(value, None),
{
}

/// Only a guest value that is a function is kept as a class, by the guest of the scope. The error
/// tells whether the engine takes the value for none or the scope has no guest.
pub proof fn law_classes_are_kept<'js, G>(
    scope: &Scope<rquickjs::Ctx<'js>, G>,
    value: rquickjs::Value<'js>,
    kept: Result<Owned<rquickjs::Persistent<rquickjs::Constructor<'static>>, G>, Error>,
)
    requires
        call_ensures(own_class::<G>, (scope, value), kept),
    ensures
        kept is Ok ==> type_of_value(value) == "function"@ && scope@.1 is Some,
        kept matches Ok(owned) ==> Some(owned@.1) == scope@.1
            && exists|own: rquickjs::Constructor<'js>|
            #![trigger may_be_class(value, Some(own))]
            may_be_class(value, Some(own)) && may_keep_class(scope@.0, own, owned@.0),
        kept matches Err(error) ==> (says_conversion(error, "expected a class"@)
            && may_be_class(value, None)) || (scope@.1 is None && tells_detached(error)
            && type_of_value(value) == "function"@
            && exists|own: rquickjs::Constructor<'js>| #[trigger] may_be_class(value, Some(own))),
{
    let found = choose|found: Option<rquickjs::Constructor<'js>>|
        #![trigger may_be_class(value, found)]
        may_be_class(value, found) && (found is Some ==> type_of_value(value) == "function"@)
            && (match (found, scope@.1) {
            (None, _) => kept matches Err(error) && says_conversion(error, "expected a class"@),
            (Some(_), Some(parent)) => kept matches Ok(owned) && owned@.1 == parent,
            (Some(_), None) => kept matches Err(error) && tells_detached(error),
        }) && (kept matches Ok(owned) ==> may_keep_class(scope@.0, found.unwrap(), owned@.0));
    if found is Some {
        assert(may_be_class(value, Some(found.unwrap())));
    }
}

/// A guest value is converted into a promise exactly where it is of the type of one, as what the
/// engine takes it for. Any other is told that one was expected.
pub proof fn law_promises_are_converted<'js>(
    value: rquickjs::Value<'js>,
    converted: Result<rquickjs::Promise<'js>, Error>,
)
    requires
        call_ensures(promise_from_guest, (value,), converted),
    ensures
        converted is Ok <==> type_of_value(value) == "promise"@,
        converted matches Ok(own) ==> may_be_promise(value, Some(own)),
        converted matches Err(error) ==> says_conversion(error, "expected a promise"@)
            && may_be_promise(value, None),
{
}

/// A guest value is kept as a promise exactly where it is of the type of one and the scope has a
/// guest, to which it belongs then. Where it is not of the type, that is what is told.
pub proof fn law_promises_are_kept<'js, G>(
    scope: &Scope<rquickjs::Ctx<'js>, G>,
    value: rquickjs::Value<'js>,
    kept: Result<Owned<rquickjs::Persistent<rquickjs::Promise<'static>>, G>, Error>,
)
    requires
        call_ensures(own_promise::<G>, (scope, value), kept),
    ensures
        kept is Ok <==> type_of_value(value) == "promise"@ && scope@.1 is Some,
        kept matches Ok(owned) ==> Some(owned@.1) == scope@.1 && exists|own: rquickjs::Promise<'js>|
            #![trigger may_be_promise(value, Some(own))]
            may_be_promise(value, Some(own)) && may_keep_promise(scope@.0, own, owned@.0),
        !(type_of_value(value) == "promise"@) ==> (kept matches Err(error)
            && says_conversion(error, "expected a promise"@)),
        type_of_value(value) == "promise"@ && scope@.1 is None ==> (kept matches Err(error)
            && tells_detached(error)),
{
    let found = choose|found: Option<rquickjs::Promise<'js>>|
        #![trigger may_be_promise(value, found)]
        may_be_promise(value, found) && (found is Some <==> type_of_value(value)
            == "promise"@) && (match (found, scope@.1) {
            (None, _) => kept matches Err(error) && says_conversion(error, "expected a promise"@),
            (Some(_), Some(parent)) => kept matches Ok(owned) && owned@.1 == parent,
            (Some(_), None) => kept matches Err(error) && tells_detached(error),
        }) && (kept matches Ok(owned) ==> may_keep_promise(scope@.0, found.unwrap(), owned@.0));
    if found is Some {
        assert(may_be_promise(value, Some(found.unwrap())));
    }
}

/// A guest value is converted into an array exactly where it is of the type of one, as what the
/// engine takes it for. Any other is told that one was expected.
pub proof fn law_arrays_are_converted<'js>(
    value: rquickjs::Value<'js>,
    converted: Result<rquickjs::Array<'js>, Error>,
)
    requires
        call_ensures(array_from_guest, (value,), converted),
    ensures
        converted is Ok <==> type_of_value(value) == "array"@,
        converted matches Ok(own) ==> may_be_array(value, Some(own)),
        converted matches Err(error) ==> says_conversion(error, "expected an array"@)
            && may_be_array(value, None),
{
}

/// A guest value is kept as an array exactly where it is of the type of one and the scope has a
/// guest, to which it belongs then. Where it is not of the type, that is what is told.
pub proof fn law_arrays_are_kept<'js, G>(
    scope: &Scope<rquickjs::Ctx<'js>, G>,
    value: rquickjs::Value<'js>,
    kept: Result<Owned<rquickjs::Persistent<rquickjs::Array<'static>>, G>, Error>,
)
    requires
        call_ensures(own_array::<G>, (scope, value), kept),
    ensures
        kept is Ok <==> type_of_value(value) == "array"@ && scope@.1 is Some,
        kept matches Ok(owned) ==> Some(owned@.1) == scope@.1 && exists|own: rquickjs::Array<'js>|
            #![trigger may_be_array(value, Some(own))]
            may_be_array(value, Some(own)) && may_keep_array(scope@.0, own, owned@.0),
        !(type_of_value(value) == "array"@) ==> (kept matches Err(error)
            && says_conversion(error, "expected an array"@)),
        type_of_value(value) == "array"@ && scope@.1 is None ==> (kept matches Err(error)
            && tells_detached(error)),
{
    let found = choose|found: Option<rquickjs::Array<'js>>|
        #![trigger may_be_array(value, found)]
        may_be_array(value, found) && (found is Some <==> type_of_value(value) == "array"@)
            && (match (found, scope@.1) {
            (None, _) => kept matches Err(error) && says_conversion(error, "expected an array"@),
            (Some(_), Some(parent)) => kept matches Ok(owned) && owned@.1 == parent,
            (Some(_), None) => kept matches Err(error) && tells_detached(error),
        }) && (kept matches Ok(owned) ==> may_keep_array(scope@.0, found.unwrap(), owned@.0));
    if found is Some {
        assert(may_be_array(value, Some(found.unwrap())));
    }
}

/// Only a guest value that is an object is converted into an array buffer, as what the engine takes
/// it for. One that the engine takes for none is told that one was expected.
pub proof fn law_array_buffers_are_converted<'js>(
    value: rquickjs::Value<'js>,
    converted: Result<rquickjs::ArrayBuffer<'js>, Error>,
)
    requires
        call_ensures(array_buffer_from_guest, (value,), converted),
    ensures
        converted is Ok ==> is_object_type(type_of_value(value)),
        converted matches Ok(own) ==> may_be_array_buffer(value, Some(own)),
        converted matches Err(error) ==> says_conversion(error, "expected an array buffer"@)
            && may_be_array_buffer(value, None),
{
}

/// Only a guest value that is an object is kept as an array buffer, by the guest of the scope. The
/// error tells whether the engine takes the value for none or the scope has no guest.
pub proof fn law_array_buffers_are_kept<'js, G>(
    scope: &Scope<rquickjs::Ctx<'js>, G>,
    value: rquickjs::Value<'js>,
    kept: Result<Owned<rquickjs::Persistent<rquickjs::ArrayBuffer<'static>>, G>, Error>,
)
    requires
        call_ensures(own_array_buffer::<G>, (scope, value), kept),
    ensures
        kept is Ok ==> is_object_type(type_of_value(value)) && scope@.1 is Some,
        kept matches Ok(owned) ==> Some(owned@.1) == scope@.1
            && exists|own: rquickjs::ArrayBuffer<'js>|
            #![trigger may_be_array_buffer(value, Some(own))]
            may_be_array_buffer(value, Some(own)) && may_keep_array_buffer(scope@.0, own, owned@.0),
        kept matches Err(error) ==> (says_conversion(error, "expected an array buffer"@)
            && may_be_array_buffer(value, None)) || (scope@.1 is None
            && tells_detached(error) && is_object_type(type_of_value(value))
            && exists|own: rquickjs::ArrayBuffer<'js>| #[trigger] may_be_array_buffer(value,
            Some(own))),
{
    let found = choose|found: Option<rquickjs::ArrayBuffer<'js>>|
        #![trigger may_be_array_buffer(value, found)]
        may_be_array_buffer(value, found) && (found is Some
            ==> is_object_type(type_of_value(value))) && (match (found, scope@.1) {
            (None, _) => kept matches Err(error)
                && says_conversion(error, "expected an array buffer"@),
            (Some(_), Some(parent)) => kept matches Ok(owned) && owned@.1 == parent,
            (Some(_), None) => kept matches Err(error) && tells_detached(error),
        }) && (kept matches Ok(owned)
            ==> may_keep_array_buffer(scope@.0, found.unwrap(), owned@.0));
    if found is Some {
        assert(may_be_array_buffer(value, Some(found.unwrap())));
    }
}

} // verus!
