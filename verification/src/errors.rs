//! The errors of the library.

use vstd::prelude::*;

use crate::text::joined;

verus! {

/// The error type returned by all guestjs operations.
#[derive(Debug)]
pub enum Error {
    /// An underlying I/O error.
    Io(std::io::Error),
    /// A failure to serialize or deserialize data.
    Serialization(serde_json::Error),
    /// A failure originating in the JavaScript engine.
    Engine {
        message: String,
        source: Option<String>,
    },
    /// An exception thrown by guest code.
    GuestException {
        message: String,
        source: Option<String>,
    },
    /// A value could not be converted across the host/guest boundary.
    Conversion {
        message: String,
        source: Option<String>,
    },
    /// A failure to transpile guest source into JavaScript.
    Transpile {
        message: String,
        source: Option<String>,
    },
    /// An interrupted guest execution.
    Interrupted,
    /// A guest execution that exceeded its time budget.
    Timeout,
    /// A cancelled guest execution.
    Cancelled,
    /// An unexpected error with no more specific category.
    Unexpected {
        message: String,
        source: Option<String>,
    },
}

/// What the engine reports for a failed operation.
#[derive(Debug)]
pub enum Caught {
    /// The operation failed without an exception.
    Engine {
        text: String,
    },
    /// An exception that guest code cannot catch was thrown. It is not asked for its text.
    Uncatchable,
    /// An `Error` instance or some other value was thrown.
    Thrown {
        text: String,
    },
}

/// `ToString` of `std::io::Error`. The text belongs to the operating system and the source error;
/// nothing is claimed of it.
#[verifier::external_body]
fn io_error_text(error: &std::io::Error) -> String {
    error.to_string()
}

/// `ToString` of `serde_json::Error`. The text is serde's own or, for an I/O error, the operating
/// system's; nothing is claimed of it.
#[verifier::external_body]
fn json_error_text(error: &serde_json::Error) -> String {
    error.to_string()
}

/// `ToString` of `rquickjs::Error`. The text is the engine's own or, for an I/O error, the operating
/// system's; nothing is claimed of it.
#[verifier::external_body]
fn engine_error_text(error: &rquickjs::Error) -> String {
    error.to_string()
}

/// Whether the text of an I/O error may read so.
pub closed spec fn may_print_io(error: std::io::Error, text: String) -> bool {
    call_ensures(io_error_text, (&error,), text)
}

/// Whether the text of a serialization error may read so.
pub closed spec fn may_print_json(error: serde_json::Error, text: String) -> bool {
    call_ensures(json_error_text, (&error,), text)
}

/// Whether the text of an engine error may read so.
pub closed spec fn may_print(error: rquickjs::Error, text: String) -> bool {
    call_ensures(engine_error_text, (&error,), text)
}

/// Prints an engine error.
pub(crate) fn print_engine_error(error: &rquickjs::Error) -> (r: String)
    ensures
        may_print(*error, r),
{
    engine_error_text(error)
}

/// Whether an error reports an engine error of a text, which is its message and its source.
pub open spec fn reports_engine(text: Seq<char>, error: Error) -> bool {
    error is Engine && error.details() == Some((text, Some(text)))
}

/// Whether an error reports a caught failure: an engine error keeps its text as message and source,
/// an uncatchable exception is an interrupt, and anything else that was thrown is a guest exception
/// with its text.
pub open spec fn reports(caught: Caught, error: Error) -> bool {
    match caught {
        Caught::Engine { text } => reports_engine(text@, error),
        Caught::Uncatchable => error == Error::Interrupted,
        Caught::Thrown { text } => error is GuestException && error.details() == Some(
            (text@, None::<Seq<char>>),
        ),
    }
}

impl Error {
    /// The message and the cause of an error, where it has a message of its own.
    pub open spec fn details(&self) -> Option<(Seq<char>, Option<Seq<char>>)> {
        match self {
            Error::Engine { message, source } => Some((message@, cause(*source))),
            Error::GuestException { message, source } => Some((message@, cause(*source))),
            Error::Conversion { message, source } => Some((message@, cause(*source))),
            Error::Transpile { message, source } => Some((message@, cause(*source))),
            Error::Unexpected { message, source } => Some((message@, cause(*source))),
            _ => None,
        }
    }

    /// The fixed part of the text of an error: all of it, or what stands before the message.
    pub open spec fn label(&self) -> Seq<char> {
        match self {
            Error::Io(_) => "io error: "@,
            Error::Serialization(_) => "serialization error: "@,
            Error::Engine { .. } => "engine error: "@,
            Error::GuestException { .. } => "guest exception: "@,
            Error::Conversion { .. } => "conversion error: "@,
            Error::Transpile { .. } => "transpile error: "@,
            Error::Interrupted => "execution interrupted"@,
            Error::Timeout => "execution timed out"@,
            Error::Cancelled => "execution cancelled"@,
            Error::Unexpected { .. } => "unexpected error: "@,
        }
    }

    /// Whether a text is the text of an error. Behind the label of an I/O or a serialization error
    /// stands a text that the outside error itself may have.
    pub open spec fn reads_as(&self, text: Seq<char>) -> bool {
        match self {
            Error::Io(error) => exists|own: String| #[trigger]
                may_print_io(*error, own) && text == self.label() + own@,
            Error::Serialization(error) => exists|own: String| #[trigger]
                may_print_json(*error, own) && text == self.label() + own@,
            Error::Interrupted | Error::Timeout | Error::Cancelled => text == self.label(),
            _ => text == self.label() + self.details().unwrap().0,
        }
    }

    /// Returns the text of the error.
    pub fn text(&self) -> (r: String)
        ensures
            self.reads_as(r@),
    {
        match self {
            Error::Io(error) => {
                let own = io_error_text(error);
                assert(may_print_io(*error, own));
                joined("io error: ", own.as_str())
            }
            Error::Serialization(error) => {
                let own = json_error_text(error);
                assert(may_print_json(*error, own));
                joined("serialization error: ", own.as_str())
            }
            Error::Engine { message, .. } => joined("engine error: ", message.as_str()),
            Error::GuestException { message, .. } => joined("guest exception: ", message.as_str()),
            Error::Conversion { message, .. } => joined("conversion error: ", message.as_str()),
            Error::Transpile { message, .. } => joined("transpile error: ", message.as_str()),
            Error::Interrupted => "execution interrupted".to_owned(),
            Error::Timeout => "execution timed out".to_owned(),
            Error::Cancelled => "execution cancelled".to_owned(),
            Error::Unexpected { message, .. } => joined("unexpected error: ", message.as_str()),
        }
    }

    /// Creates an [`Error::Io`](crate::errors::Error::Io) from the given I/O error.
    pub fn io(error: std::io::Error) -> (r: Self)
        ensures
            r == Error::Io(error),
    {
        Error::Io(error)
    }

    /// Creates an [`Error::Serialization`](crate::errors::Error::Serialization) with the given
    /// serde JSON error.
    pub fn serialization(error: serde_json::Error) -> (r: Self)
        ensures
            r == Error::Serialization(error),
    {
        Error::Serialization(error)
    }

    /// Creates an [`Error::Engine`](crate::errors::Error::Engine) with the given message.
    pub fn engine(message: &str) -> (r: Self)
        ensures
            r is Engine,
            r.details() == Some((message@, None::<Seq<char>>)),
    {
        Error::Engine { message: message.to_owned(), source: None }
    }

    /// Creates an [`Error::Engine`](crate::errors::Error::Engine) with the given message and the
    /// text of its source error.
    pub fn sourced_engine(message: &str, source: Option<String>) -> (r: Self)
        ensures
            r is Engine,
            r.details() == Some((message@, cause(source))),
    {
        Error::Engine { message: message.to_owned(), source }
    }

    /// Creates an [`Error::GuestException`](crate::errors::Error::GuestException) with the given
    /// message.
    pub fn guest_exception(message: &str) -> (r: Self)
        ensures
            r is GuestException,
            r.details() == Some((message@, None::<Seq<char>>)),
    {
        Error::GuestException { message: message.to_owned(), source: None }
    }

    /// Creates an [`Error::GuestException`](crate::errors::Error::GuestException) with the given
    /// message and the text of its source error.
    pub fn sourced_guest_exception(message: &str, source: Option<String>) -> (r: Self)
        ensures
            r is GuestException,
            r.details() == Some((message@, cause(source))),
    {
        Error::GuestException { message: message.to_owned(), source }
    }

    /// Creates an [`Error::Conversion`](crate::errors::Error::Conversion) with the given message.
    pub fn conversion(message: &str) -> (r: Self)
        ensures
            r is Conversion,
            r.details() == Some((message@, None::<Seq<char>>)),
    {
        Error::Conversion { message: message.to_owned(), source: None }
    }

    /// Creates an [`Error::Conversion`](crate::errors::Error::Conversion) with the given message
    /// and the text of its source error.
    pub fn sourced_conversion(message: &str, source: Option<String>) -> (r: Self)
        ensures
            r is Conversion,
            r.details() == Some((message@, cause(source))),
    {
        Error::Conversion { message: message.to_owned(), source }
    }

    /// Creates an [`Error::Transpile`](crate::errors::Error::Transpile) with the given message.
    pub fn transpile(message: &str) -> (r: Self)
        ensures
            r is Transpile,
            r.details() == Some((message@, None::<Seq<char>>)),
    {
        Error::Transpile { message: message.to_owned(), source: None }
    }

    /// Creates an [`Error::Transpile`](crate::errors::Error::Transpile) with the given message and
    /// the text of its source error.
    pub fn sourced_transpile(message: &str, source: Option<String>) -> (r: Self)
        ensures
            r is Transpile,
            r.details() == Some((message@, cause(source))),
    {
        Error::Transpile { message: message.to_owned(), source }
    }

    /// Creates an [`Error::Interrupted`](crate::errors::Error::Interrupted).
    pub fn interrupted() -> (r: Self)
        ensures
            r == Error::Interrupted,
    {
        Error::Interrupted
    }

    /// Creates an [`Error::Timeout`](crate::errors::Error::Timeout).
    pub fn timeout() -> (r: Self)
        ensures
            r == Error::Timeout,
    {
        Error::Timeout
    }

    /// Creates an [`Error::Cancelled`](crate::errors::Error::Cancelled).
    pub fn cancelled() -> (r: Self)
        ensures
            r == Error::Cancelled,
    {
        Error::Cancelled
    }

    /// Returns whether this is an [`Error::Interrupted`](crate::errors::Error::Interrupted).
    pub fn is_interrupt(&self) -> (r: bool)
        ensures
            r == (*self == Error::Interrupted),
    {
        match self {
            Error::Interrupted => true,
            _ => false,
        }
    }

    /// Creates an error for building an owned handle on a detached scope.
    pub fn detached_scope() -> (r: Self)
        ensures
            r is Unexpected,
            r.details() == Some(
                ("cannot build an owned guest handle on detached scope"@, None::<Seq<char>>),
            ),
    {
        Error::unexpected("cannot build an owned guest handle on detached scope")
    }

    /// Creates an [`Error::Unexpected`](crate::errors::Error::Unexpected) with the given message.
    pub fn unexpected(message: &str) -> (r: Self)
        ensures
            r is Unexpected,
            r.details() == Some((message@, None::<Seq<char>>)),
    {
        Error::Unexpected { message: message.to_owned(), source: None }
    }

    /// Creates an [`Error::Unexpected`](crate::errors::Error::Unexpected) with the given message
    /// and the text of its source error.
    pub fn sourced_unexpected(message: &str, source: Option<String>) -> (r: Self)
        ensures
            r is Unexpected,
            r.details() == Some((message@, cause(source))),
    {
        Error::Unexpected { message: message.to_owned(), source }
    }

    /// Reports a caught engine failure.
    pub fn caught(caught: Caught) -> (r: Self)
        ensures
            reports(caught, r),
    {
        match caught {
            Caught::Engine { text } => Error::sourced_engine(text.as_str(), Some(text.clone())),
            Caught::Uncatchable => Error::interrupted(),
            Caught::Thrown { text } => Error::guest_exception(text.as_str()),
        }
    }
}

/// The text of a source error, where there is one.
pub open spec fn cause(source: Option<String>) -> Option<Seq<char>> {
    match source {
        Some(text) => Some(text@),
        None => None,
    }
}

impl vstd::std_specs::convert::FromSpecImpl<rquickjs::Error> for Error {
    open spec fn obeys_from_spec() -> bool {
        false
    }

    open spec fn from_spec(error: rquickjs::Error) -> Self {
        arbitrary()
    }
}

impl From<rquickjs::Error> for Error {
    /// Reports an engine error with its text as message and as source.
    fn from(error: rquickjs::Error) -> (r: Self)
        ensures
            exists|text: String| #[trigger] may_print(error, text) && reports_engine(text@, r),
    {
        let text = print_engine_error(&error);
        Error::sourced_engine(text.as_str(), Some(text.clone()))
    }
}

/// The text of an error from outside ends in the text that the error itself has.
proof fn law_outside_errors_print_themselves(
    error: Error,
    text: String,
    engine: rquickjs::Error,
    printed: String,
)
    requires
        call_ensures(Error::text, (&error,), text),
        call_ensures(print_engine_error, (&engine,), printed),
    ensures
        error matches Error::Io(cause) ==> exists|own: String| #[trigger]
            call_ensures(io_error_text, (&cause,), own) && text@ == "io error: "@ + own@,
        error matches Error::Serialization(cause) ==> exists|own: String| #[trigger]
            call_ensures(json_error_text, (&cause,), own) && text@ == "serialization error: "@
                + own@,
        call_ensures(engine_error_text, (&engine,), printed),
{
    match error {
        Error::Io(cause) => {
            let own = choose|own: String| #[trigger]
                may_print_io(cause, own) && text@ == "io error: "@ + own@;
            assert(call_ensures(io_error_text, (&cause,), own));
        }
        Error::Serialization(cause) => {
            let own = choose|own: String| #[trigger]
                may_print_json(cause, own) && text@ == "serialization error: "@ + own@;
            assert(call_ensures(json_error_text, (&cause,), own));
        }
        _ => {}
    }
}

} // verus!
