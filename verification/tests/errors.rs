use guestjs::errors::{Caught, Error};
use rquickjs::{CatchResultExt, CaughtError, Context, Ctx, Runtime, Value};

#[test]
fn errors_read_as_their_label_and_message() {
    assert_eq!(
        Error::io(std::io::Error::new(std::io::ErrorKind::Other, "disk")).text(),
        "io error: disk",
    );
    assert_eq!(Error::engine("broken").text(), "engine error: broken");
    assert_eq!(Error::guest_exception("thrown").text(), "guest exception: thrown");
    assert_eq!(Error::conversion("no").text(), "conversion error: no");
    assert_eq!(Error::transpile("bad").text(), "transpile error: bad");
    assert_eq!(Error::unexpected("odd").text(), "unexpected error: odd");
    assert_eq!(Error::interrupted().text(), "execution interrupted");
    assert_eq!(Error::timeout().text(), "execution timed out");
    assert_eq!(Error::cancelled().text(), "execution cancelled");
    assert_eq!(
        Error::detached_scope().text(),
        "unexpected error: cannot build an owned guest handle on detached scope",
    );
}

#[test]
fn a_serialization_error_keeps_its_own_text() {
    let error = serde_json::from_str::<u8>("x").unwrap_err();
    let text = error.to_string();

    assert_eq!(
        Error::serialization(error).text(),
        format!("serialization error: {text}"),
    );
}

#[test]
fn sources_stand_beside_the_message() {
    assert!(matches!(
        Error::sourced_conversion("outer", Some("inner".to_owned())),
        Error::Conversion { message, source: Some(source) }
            if message == "outer" && source == "inner",
    ));
    assert!(matches!(
        Error::sourced_engine("outer", None),
        Error::Engine { message, source: None } if message == "outer",
    ));
    assert!(matches!(
        Error::sourced_guest_exception("outer", Some("inner".to_owned())),
        Error::GuestException { source: Some(source), .. } if source == "inner",
    ));
    assert!(matches!(
        Error::sourced_transpile("outer", Some("inner".to_owned())),
        Error::Transpile { source: Some(source), .. } if source == "inner",
    ));
    assert!(matches!(
        Error::sourced_unexpected("outer", Some("inner".to_owned())),
        Error::Unexpected { source: Some(source), .. } if source == "inner",
    ));
}

#[test]
fn only_an_interrupt_is_one() {
    assert!(Error::interrupted().is_interrupt());
    assert!(!Error::timeout().is_interrupt());
    assert!(!Error::cancelled().is_interrupt());
    assert!(!Error::unexpected("x").is_interrupt());
}

fn caught(source: &str, stop: bool) -> Error {
    let runtime = Runtime::new().unwrap();
    if stop {
        runtime.set_interrupt_handler(Some(Box::new(|| true)));
    }
    let context = Context::full(&runtime).unwrap();

    context.with(|ctx: Ctx<'_>| {
        Error::caught(match ctx.eval::<Value, _>(source).catch(&ctx).unwrap_err() {
            CaughtError::Error(error) => Caught::Engine { text: error.to_string() },
            CaughtError::Exception(error) if error.as_value().is_uncatchable_error() => {
                Caught::Uncatchable
            }
            CaughtError::Exception(error) => Caught::Thrown { text: error.to_string() },
            CaughtError::Value(value) if value.is_uncatchable_error() => Caught::Uncatchable,
            CaughtError::Value(value) => Caught::Thrown { text: format!("{value:?}") },
        })
    })
}

#[test]
fn a_thrown_error_is_a_guest_exception() {
    match caught("throw new Error('guest failed')", false) {
        Error::GuestException { message, .. } => assert!(message.contains("guest failed")),
        other => panic!("unexpected {other:?}"),
    }
}

#[test]
fn a_thrown_value_is_a_guest_exception() {
    assert!(matches!(caught("throw 7", false), Error::GuestException { .. }));
}

#[test]
fn an_interrupted_script_is_an_interrupt() {
    assert!(matches!(caught("for (;;) {}", true), Error::Interrupted));
}

#[test]
fn caught_failures_are_reported_by_their_kind() {
    assert!(matches!(Error::caught(Caught::Uncatchable), Error::Interrupted));
    assert!(matches!(
        Error::caught(Caught::Thrown { text: "t".to_owned() }),
        Error::GuestException { message, source: None } if message == "t"
    ));
    assert!(matches!(
        Error::caught(Caught::Engine { text: "e".to_owned() }),
        Error::Engine { message, source: Some(source) } if message == "e" && source == "e"
    ));
}

#[test]
fn an_engine_error_is_its_own_source() {
    match Error::from(rquickjs::Error::new_loading("route")) {
        Error::Engine { message, source } => {
            assert!(message.contains("route"));
            assert_eq!(source, Some(message));
        }
        other => panic!("unexpected {other:?}"),
    }
}
