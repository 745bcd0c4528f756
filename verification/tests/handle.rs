use std::rc::Rc;

use guestjs::errors::Error;
use guestjs::handle::array;
use guestjs::handle::awaitable::{awaited, Awaited};
use guestjs::handle::kind::{
    array_buffer_from_guest, array_from_guest, class_from_guest, function_from_guest,
    object_from_guest, own_array, own_array_buffer, own_class, own_function, own_object,
    own_promise, promise_from_guest,
};
use guestjs::handle::{Bound, Cursor, CursorError, HandleKind, Owned, Scoped, SeekTarget};
use guestjs::runtime::Scope;
use rquickjs::{Context, Ctx, Runtime, Value};

fn with_value<R>(source: &str, check: impl for<'js> FnOnce(Value<'js>) -> R) -> R {
    let runtime = Runtime::new().unwrap();
    let context = Context::full(&runtime).unwrap();

    context.with(|ctx: Ctx<'_>| check(ctx.eval::<Value, _>(source).unwrap()))
}

#[test]
fn writes_go_behind_one_another_and_are_read_back() {
    let mut memory = vec![0u8; 4];
    let mut cursor = Cursor::new();

    assert_eq!(cursor.write(Some(&mut memory), &[1, 2]), Ok(2));
    assert_eq!(cursor.write(Some(&mut memory), &[3]), Ok(1));
    assert_eq!(memory, vec![1, 2, 3, 0]);
    assert_eq!(cursor.position(), 3);

    assert_eq!(cursor.seek(Some(4), SeekTarget::Start(0)), Ok(0));
    let mut target = [9u8; 3];
    assert_eq!(cursor.read(Some(&memory), &mut target), Ok(3));
    assert_eq!(target, [1, 2, 3]);
}

#[test]
fn writes_after_a_seek_leave_earlier_bytes_alone() {
    let mut memory = vec![1u8, 2, 3, 4];
    let mut cursor = Cursor::new();

    assert_eq!(cursor.seek(Some(4), SeekTarget::End(-2)), Ok(2));
    assert_eq!(cursor.write(Some(&mut memory), &[9]), Ok(1));
    assert_eq!(memory, vec![1, 2, 9, 4]);
    assert_eq!(cursor.seek(Some(4), SeekTarget::Current(-1)), Ok(2));
}

#[test]
fn a_write_beyond_the_end_is_partial_and_then_nothing() {
    let mut memory = vec![0u8; 2];
    let mut cursor = Cursor::new();

    assert_eq!(cursor.write(Some(&mut memory), &[1, 2, 3]), Ok(2));
    assert_eq!(cursor.write(Some(&mut memory), &[4]), Ok(0));
    assert_eq!(memory, vec![1, 2]);
}

#[test]
fn reads_stop_at_the_end() {
    let memory = vec![5u8, 6];
    let mut cursor = Cursor::new();
    let mut target = [0u8; 4];

    assert_eq!(cursor.read(Some(&memory), &mut target), Ok(2));
    assert_eq!(target, [5, 6, 0, 0]);
    assert_eq!(cursor.read(Some(&memory), &mut target), Ok(0));
    assert_eq!(Cursor::new().read(Some(&[]), &mut target), Ok(0));
}

#[test]
fn a_cursor_may_stand_behind_the_end() {
    let mut memory = vec![1u8];
    let mut cursor = Cursor::new();

    assert_eq!(cursor.seek(Some(1), SeekTarget::Start(7)), Ok(7));
    assert_eq!(cursor.write(Some(&mut memory), &[2]), Ok(0));
    assert_eq!(cursor.read(Some(&memory), &mut [0u8; 1]), Ok(0));
    assert_eq!(cursor.remaining(Some(1)), 0);
    assert_eq!(cursor.chunk(Some(1)), (0, 0));
    assert_eq!(cursor.position(), 7);
}

#[test]
fn a_seek_before_the_start_is_refused() {
    let mut cursor = Cursor::new();

    assert_eq!(cursor.seek(Some(3), SeekTarget::End(-4)), Err(CursorError::BeforeStart));
    assert_eq!(cursor.seek(Some(3), SeekTarget::Current(-1)), Err(CursorError::BeforeStart));
    assert_eq!(cursor.position(), 0);
    assert_eq!(
        CursorError::BeforeStart.message(),
        "seek before the start of the guest buffer",
    );
}

#[test]
fn a_seek_beyond_the_word_is_cut() {
    let mut cursor = Cursor::new();

    assert_eq!(cursor.seek(Some(3), SeekTarget::Start(u64::MAX)), Ok(u64::MAX));
    assert_eq!(cursor.seek(Some(3), SeekTarget::Current(3)), Ok(2));
}

#[test]
fn detached_memory_takes_and_gives_nothing() {
    let mut cursor = Cursor::new();

    assert_eq!(cursor.write(None, &[1]), Err(CursorError::Detached));
    assert_eq!(cursor.read(None, &mut [0u8; 1]), Err(CursorError::Detached));
    assert_eq!(cursor.seek(None, SeekTarget::Start(0)), Err(CursorError::Detached));
    assert_eq!(cursor.remaining(None), 0);
    assert_eq!(cursor.chunk(None), (0, 0));
    assert_eq!(CursorError::Detached.message(), "the guest buffer is detached");
    assert_eq!(array::get::<u8>(None, 0), None);
    assert!(!array::set::<u8>(None, 0, &[1]));
}

#[test]
fn a_cursor_is_moved_over_chunks() {
    let mut cursor = Cursor::new();

    assert_eq!(cursor.chunk(Some(5)), (0, 5));
    cursor.advance(Some(5), 2);
    assert_eq!(cursor.chunk(Some(5)), (2, 3));
    assert_eq!(cursor.remaining(Some(5)), 3);
    cursor.advance_mut(3);
    assert_eq!(cursor.remaining(Some(5)), 0);
}

#[test]
fn typed_elements_are_whole_elements() {
    let mut memory = vec![1u8, 2, 3, 4, 5, 6, 7];

    assert_eq!(array::get::<u16>(Some(&memory), 2), Some(vec![5, 6]));
    assert_eq!(array::get::<u16>(Some(&memory), 3), None);
    assert_eq!(array::get::<i32>(Some(&memory), 0), Some(vec![1, 2, 3, 4]));
    assert_eq!(array::get::<i64>(Some(&memory), 0), None);
    assert!(array::set::<u16>(Some(&mut memory), 1, &[9, 8]));
    assert_eq!(memory, vec![1, 2, 9, 8, 5, 6, 7]);
    assert!(!array::set::<u32>(Some(&mut memory), 1, &[0, 0, 0, 0]));
    assert_eq!(memory, vec![1, 2, 9, 8, 5, 6, 7]);
    assert_eq!(array::get::<i8>(Some(&memory), usize::MAX), None);
    assert_eq!(array::get::<u64>(Some(&[1, 2, 3, 4, 5, 6, 7, 8]), 0), Some(vec![1, 2, 3, 4, 5, 6, 7, 8]));
    assert_eq!(array::get::<i16>(Some(&memory), 0), Some(vec![1, 2]));
    assert_eq!(array::get::<u32>(Some(&memory), 0), Some(vec![1, 2, 9, 8]));
}

#[test]
fn guest_values_are_taken_for_what_they_are() {
    assert!(with_value("({})", |value| object_from_guest(value).is_ok()));
    assert!(with_value("(() => 1)", |value| function_from_guest(value).is_ok()));
    assert!(with_value("(class A {})", |value| class_from_guest(value).is_ok()));
    assert!(with_value("Promise.resolve(1)", |value| promise_from_guest(value).is_ok()));
    assert!(with_value("[1]", |value| array_from_guest(value).is_ok()));
    assert!(with_value("new ArrayBuffer(2)", |value| array_buffer_from_guest(value).is_ok()));

    for source in [
        "[1]",
        "(() => 1)",
        "(class A {})",
        "new Error('no')",
        "Promise.resolve(1)",
        "new Proxy({}, {})",
        "new ArrayBuffer(2)",
    ] {
        assert!(with_value(source, |value| object_from_guest(value).is_ok()));
    }

    assert!(with_value("(class A {})", |value| function_from_guest(value).is_ok()));
}

#[test]
fn other_guest_values_are_refused() {
    let text = |error: Error| error.text();

    assert_eq!(
        with_value("1", |value| object_from_guest(value).err().map(text)).unwrap(),
        "conversion error: expected an object",
    );
    assert_eq!(
        with_value("({})", |value| function_from_guest(value).err().map(text)).unwrap(),
        "conversion error: expected a function",
    );
    assert_eq!(
        with_value("(() => 1)", |value| class_from_guest(value).err().map(text)).unwrap(),
        "conversion error: expected a class",
    );
    assert_eq!(
        with_value("({})", |value| promise_from_guest(value).err().map(text)).unwrap(),
        "conversion error: expected a promise",
    );
    assert_eq!(
        with_value("({})", |value| array_from_guest(value).err().map(text)).unwrap(),
        "conversion error: expected an array",
    );
    assert_eq!(
        with_value("[]", |value| array_buffer_from_guest(value).err().map(text)).unwrap(),
        "conversion error: expected an array buffer",
    );
}

#[test]
fn owned_handles_keep_the_value_and_its_guest() {
    let runtime = Runtime::new().unwrap();
    let context = Context::full(&runtime).unwrap();

    context.with(|ctx: Ctx<'_>| {
        let eval = |source: &str| ctx.eval::<Value, _>(source).unwrap();
        let scope = Scope::new(ctx.clone(), Rc::new("guest"));

        let object = own_object(&scope, eval("({ a: 7 })")).unwrap();
        assert_eq!(**object.context(), "guest");
        let restored = object.into_value().restore(&ctx).unwrap();
        assert_eq!(restored.get::<_, i32>("a").unwrap(), 7);

        let function = own_function(&scope, eval("(value => value + 1)")).unwrap();
        let restored = function.into_value().restore(&ctx).unwrap();
        assert_eq!(restored.call::<_, i32>((1,)).unwrap(), 2);

        let array = own_array(&scope, eval("[1, 2, 3]")).unwrap();
        assert_eq!(array.into_value().restore(&ctx).unwrap().len(), 3);

        let buffer = own_array_buffer(&scope, eval("new Uint8Array([4, 5]).buffer")).unwrap();
        let restored = buffer.into_value().restore(&ctx).unwrap();
        assert_eq!(restored.as_bytes(), Some(&[4u8, 5][..]));

        let class = own_class(&scope, eval("(class A { b() { return 3 } })")).unwrap();
        let restored = class.into_value().restore(&ctx).unwrap();
        assert!(restored.construct::<_, Value>(()).unwrap().is_object());

        let promise = own_promise(&scope, eval("Promise.resolve(1)")).unwrap();
        let restored = promise.into_value().restore(&ctx).unwrap();
        assert_eq!(restored.result::<i32>().unwrap().unwrap(), 1);
    });
}

#[test]
fn owned_handles_need_the_kind_and_a_guest() {
    let runtime = Runtime::new().unwrap();
    let context = Context::full(&runtime).unwrap();

    context.with(|ctx: Ctx<'_>| {
        let eval = |source: &str| ctx.eval::<Value, _>(source).unwrap();
        let attached = Scope::new(ctx.clone(), Rc::new(()));
        let detached = Scope::<Ctx<'_>, ()>::detached(ctx.clone());
        let refused = "unexpected error: cannot build an owned guest handle on detached scope";

        assert_eq!(
            own_object(&attached, eval("1")).err().unwrap().text(),
            "conversion error: expected an object",
        );
        assert_eq!(
            own_promise(&detached, eval("({})")).err().unwrap().text(),
            "conversion error: expected a promise",
        );
        assert_eq!(own_object(&detached, eval("({})")).err().unwrap().text(), refused);
        assert_eq!(own_array(&detached, eval("[]")).err().unwrap().text(), refused);
        assert_eq!(own_array_buffer(&detached, eval("new ArrayBuffer(1)")).err().unwrap().text(), refused);
    });
}

#[test]
fn a_function_is_a_class_while_it_is_a_constructor() {
    let runtime = Runtime::new().unwrap();
    let context = Context::full(&runtime).unwrap();

    context.with(|ctx: Ctx<'_>| {
        let value = ctx.eval::<Value, _>("(() => 1)").unwrap();
        let function = function_from_guest(value.clone()).unwrap();

        assert!(class_from_guest(value.clone()).is_err());
        function.set_constructor(true);
        assert!(class_from_guest(value.clone()).is_ok());
        assert!(function_from_guest(value.clone()).is_ok());
        assert!(matches!(awaited(value), Ok(Awaited::Ready(_))));
    });
}

#[test]
fn a_found_value_is_passed_on() {
    assert_eq!(HandleKind::Array.expect(Some(3)).unwrap(), 3);
    assert_eq!(
        HandleKind::Object.expect(None::<u8>).unwrap_err().text(),
        "conversion error: expected an object",
    );
}

#[test]
fn only_a_promise_is_waited_for() {
    assert!(with_value("Promise.resolve(1)", |value| {
        matches!(awaited(value), Ok(Awaited::Pending(_)))
    }));
    assert_eq!(
        with_value("42", |value| match awaited(value) {
            Ok(Awaited::Ready(value)) => value.as_int(),
            _ => None,
        }),
        Some(42),
    );
    assert!(matches!(
        Awaited::<u8, u8>::of_value(1, false, |_| Err("no".to_owned())),
        Ok(Awaited::Ready(1)),
    ));
    assert!(matches!(
        Awaited::<u8, u16>::of_value(1, true, |value| Ok(value as u16 + 1)),
        Ok(Awaited::Pending(2)),
    ));
    assert!(matches!(
        Awaited::<u8, u8>::of_value(1, true, |_| Err("no".to_owned())),
        Err(Error::Conversion { message, source: Some(source) })
            if message == "expected a promise" && source == "no",
    ));
}

#[test]
fn a_handle_belongs_to_the_guest_of_its_scope() {
    let scope = Scope::new("ctx", Rc::new("guest"));
    let owned = Owned::from_guest(&scope, Ok(5), |ctx: &&str, value: i32| format!("{ctx}:{value}"));
    let owned = owned.unwrap();

    assert_eq!(owned.value(), "ctx:5");
    assert_eq!(**owned.context(), "guest");

    let bound = owned.bind(scope, |_ctx: &&str, saved: &String| Ok(saved.len())).unwrap();
    assert_eq!(*bound.value(), 5);
    assert_eq!(*bound.scope().ctx(), "ctx");

    let again = bound.into_owned(|_ctx: &&str, value: usize| value + 1).unwrap();
    assert_eq!(again.into_value(), 6);
}

#[test]
fn a_detached_scope_gives_no_handles() {
    let scope: Scope<&str, &str> = Scope::detached("ctx");
    let message = "unexpected error: cannot build an owned guest handle on detached scope";

    assert!(scope.parent().is_none());
    assert_eq!(scope.owner().err().unwrap().text(), message);
    assert_eq!(
        Owned::from_guest(&scope, Ok(5), |_: &&str, value: i32| value).err().unwrap().text(),
        message,
    );
    assert_eq!(
        Bound::new(5, scope).into_owned(|_: &&str, value: i32| value).err().unwrap().text(),
        message,
    );
}

#[test]
fn a_failed_conversion_comes_before_the_scope() {
    let scope: Scope<&str, &str> = Scope::detached("ctx");

    assert_eq!(
        Owned::<i32, &str>::from_guest(
            &scope,
            HandleKind::Function.expect(None),
            |_: &&str, value: i32| value,
        )
        .err()
        .unwrap()
        .text(),
        "conversion error: expected a function",
    );
}

#[test]
fn a_scoped_value_is_made_once_a_scope_is_there() {
    assert_eq!(
        Scoped::new(|scope: i32| Ok(scope + 1)).to_guest(4, |value: i32| Ok(value * 2)).unwrap(),
        10,
    );
    assert_eq!(
        Scoped::new(|_scope: i32| Err::<i32, _>(Error::unexpected("no value")))
            .to_guest(4, |value: i32| Ok(value * 2))
            .unwrap_err()
            .text(),
        "unexpected error: no value",
    );
}
