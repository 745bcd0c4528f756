//! Errors.

use vstd::prelude::*;

use crate::errors::{may_print, may_print_io, may_print_json, Caught, Error};

verus! {

/// Whether an error is an unexpected one of a text, without a source.
pub open spec fn says_unexpected(error: Error, text: Seq<char>) -> bool {
    error matches Error::Unexpected { message, source } && message@ == text && source is None
}

/// Whether an error is a conversion error of a text, without a source.
pub open spec fn says_conversion(error: Error, text: Seq<char>) -> bool {
    error matches Error::Conversion { message, source } && message@ == text && source is None
}

/// Whether an error is a transpile error of a text, without a source.
pub open spec fn says_transpile(error: Error, text: Seq<char>) -> bool {
    error matches Error::Transpile { message, source } && message@ == text && source is None
}

/// An error with a message is told by its category and its message alone, whatever its source.
pub proof fn law_messages_are_told_by_category(error: Error, text: String)
    requires
        call_ensures(Error::text, (&error,), text),
    ensures
        error matches Error::Engine { message, source } ==> text@ == "engine error: "@ + message@,
        error matches Error::GuestException { message, source } ==> text@ == "guest exception: "@
            + message@,
        error matches Error::Conversion { message, source } ==> text@ == "conversion error: "@
            + message@,
        error matches Error::Transpile { message, source } ==> text@ == "transpile error: "@
            + message@,
        error matches Error::Unexpected { message, source } ==> text@ == "unexpected error: "@
            + message@,
{
}

/// An interrupt, a timeout and a cancellation have a text of their own.
pub proof fn law_stops_are_told_apart(error: Error, text: String)
    requires
        call_ensures(Error::text, (&error,), text),
    ensures
        error is Interrupted ==> text@ == "execution interrupted"@,
        error is Timeout ==> text@ == "execution timed out"@,
        error is Cancelled ==> text@ == "execution cancelled"@,
{
}

/// An error from outside keeps its own text behind its category.
pub proof fn law_outside_errors_keep_their_text(error: Error, text: String)
    requires
        call_ensures(Error::text, (&error,), text),
    ensures
        error matches Error::Io(cause) ==> exists|own: String| #[trigger]
            may_print_io(cause, own) && text@ == "io error: "@ + own@,
        error matches Error::Serialization(cause) ==> exists|own: String| #[trigger]
            may_print_json(cause, own) && text@ == "serialization error: "@ + own@,
{
}

/// An error that is made from a message has its category and that message, and no source.
pub proof fn law_errors_keep_their_message(
    message: &str,
    engine: Error,
    exception: Error,
    conversion: Error,
    transpile: Error,
    unexpected: Error,
)
    requires
        call_ensures(Error::engine, (message,), engine),
        call_ensures(Error::guest_exception, (message,), exception),
        call_ensures(Error::conversion, (message,), conversion),
        call_ensures(Error::transpile, (message,), transpile),
        call_ensures(Error::unexpected, (message,), unexpected),
    ensures
        engine matches Error::Engine { message: own, source } && own@ == message@ && source is None,
        exception matches Error::GuestException { message: own, source } && own@ == message@
            && source is None,
        conversion matches Error::Conversion { message: own, source } && own@ == message@
            && source is None,
        transpile matches Error::Transpile { message: own, source } && own@ == message@
            && source is None,
        unexpected matches Error::Unexpected { message: own, source } && own@ == message@
            && source is None,
{
}

/// Whether the source of an error is a text, or there is neither.
pub open spec fn same_source(kept: Option<String>, given: Option<String>) -> bool {
    match (kept, given) {
        (Some(kept), Some(given)) => kept@ == given@,
        (None, None) => true,
        _ => false,
    }
}

/// An error that is made from a message and a source has its category, that message and that
/// source.
pub proof fn law_errors_keep_their_source(
    message: &str,
    given: Option<String>,
    engine: Error,
    exception: Error,
    conversion: Error,
    transpile: Error,
    unexpected: Error,
)
    requires
        call_ensures(Error::sourced_engine, (message, given), engine),
        call_ensures(Error::sourced_guest_exception, (message, given), exception),
        call_ensures(Error::sourced_conversion, (message, given), conversion),
        call_ensures(Error::sourced_transpile, (message, given), transpile),
        call_ensures(Error::sourced_unexpected, (message, given), unexpected),
    ensures
        engine matches Error::Engine { message: own, source } && own@ == message@ && same_source(
            source,
            given,
        ),
        exception matches Error::GuestException { message: own, source } && own@ == message@
            && same_source(source, given),
        conversion matches Error::Conversion { message: own, source } && own@ == message@
            && same_source(source, given),
        transpile matches Error::Transpile { message: own, source } && own@ == message@
            && same_source(source, given),
        unexpected matches Error::Unexpected { message: own, source } && own@ == message@
            && same_source(source, given),
{
}

/// The remaining errors are what they are named after, and only an interrupt is an interrupt.
pub proof fn law_errors_are_what_they_are_named_after(
    io_cause: std::io::Error,
    io: Error,
    json_cause: serde_json::Error,
    serialization: Error,
    interrupted: Error,
    timeout: Error,
    cancelled: Error,
    detached: Error,
    any: Error,
    interrupt: bool,
)
    requires
        call_ensures(Error::io, (io_cause,), io),
        call_ensures(Error::serialization, (json_cause,), serialization),
        call_ensures(Error::interrupted, (), interrupted),
        call_ensures(Error::timeout, (), timeout),
        call_ensures(Error::cancelled, (), cancelled),
        call_ensures(Error::detached_scope, (), detached),
        call_ensures(Error::is_interrupt, (&any,), interrupt),
    ensures
        io == Error::Io(io_cause),
        serialization == Error::Serialization(json_cause),
        interrupted is Interrupted,
        timeout is Timeout,
        cancelled is Cancelled,
        detached matches Error::Unexpected { message, source } && message@
            == "cannot build an owned guest handle on detached scope"@ && source is None,
        interrupt <==> any is Interrupted,
{
}

/// What guest code threw is a guest exception with its text, what it cannot catch is an interrupt,
/// and what the engine itself reports is an engine error with its text as message and source.
pub proof fn law_caught_failures_are_reported(caught: Caught, error: Error)
    requires
        call_ensures(Error::caught, (caught,), error),
    ensures
        caught matches Caught::Thrown { text } ==> (error matches Error::GuestException {
            message,
            source,
        } && message@ == text@ && source is None),
        caught is Uncatchable <==> error is Interrupted,
        caught matches Caught::Engine { text } ==> (error matches Error::Engine { message, source }
            && message@ == text@ && (source matches Some(own) && own@ == text@)),
{
}

/// An engine error is reported with its own text as message and source.
pub proof fn law_engine_errors_are_reported(engine: rquickjs::Error, error: Error)
    requires
        call_ensures(<Error as From<rquickjs::Error>>::from, (engine,), error),
    ensures
        error matches Error::Engine { message, source } && (source matches Some(own) && own@
            == message@) && exists|text: String| #[trigger]
            may_print(engine, text) && text@ == message@,
{
    let text = choose|text: String| #[trigger]
        may_print(engine, text) && crate::errors::reports_engine(text@, error);
    assert(may_print(engine, text));
}

} // verus!
