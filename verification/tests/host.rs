use std::cell::Cell;
use std::rc::Rc;
use std::sync::Arc;

use guestjs::errors::Error;
use guestjs::host::callable::{CallableBody, Completion, HostFn};
use guestjs::host::class::{
    call_accessor, iterate, Called, ClassSpec, HostClass, MethodSpec, PrototypeStep,
    WellKnownSymbol,
};
use guestjs::host::library::{HostLibrary, HostLibraryEntry};
use guestjs::host::module::{Exports, HostModule};
use guestjs::host::namespace::{perform, Export, Member, Namespace, Step};
use guestjs::host::{Args, Deferred, HostInitializer, HostObject};
use guestjs::runtime::Scope;
use rquickjs::{Context as JsContext, Ctx, Runtime as JsRuntime};

enum Host {
    First,
    Second,
}

impl HostModule for Host {
    type Function = ();
    type Value = ();
    type Setter = ();

    fn name(&self) -> &str {
        match self {
            Host::First => "first",
            Host::Second => "second",
        }
    }

    fn build(&self, _exports: &mut Exports<(), (), ()>) {}
}

type Initializer = fn(&Scope<Ctx<'_>, ()>) -> Result<(), Error>;

fn nothing(_scope: &Scope<Ctx<'_>, ()>) -> Result<(), Error> {
    Ok(())
}

#[test]
fn converts_host_module_into_library() {
    let library: HostLibrary<Host, Initializer> = HostLibrary::from(Host::First);

    match library.into_entries().remove(0) {
        HostLibraryEntry::Module(module) => {
            assert_eq!(module.name(), "first");
        }
        HostLibraryEntry::Initializer(_) => {
            panic!("expected a host module");
        }
    }
}

#[test]
fn preserves_heterogeneous_entry_order() {
    let entries = HostLibrary::new()
        .with(Host::First)
        .initialize(HostInitializer::new("first:init", nothing as Initializer))
        .with(Host::Second)
        .into_entries();

    assert!(matches!(
        &entries[0],
        HostLibraryEntry::Module(module) if module.name() == "first"
    ));
    assert!(matches!(
        &entries[1],
        HostLibraryEntry::Initializer(initializer) if initializer.name() == "first:init"
    ));
    assert!(matches!(
        &entries[2],
        HostLibraryEntry::Module(module) if module.name() == "second"
    ));

    let first = match &entries[0] {
        HostLibraryEntry::Module(module) => module,
        HostLibraryEntry::Initializer(_) => {
            panic!("expected a host module");
        }
    };
    let second = match &entries[2] {
        HostLibraryEntry::Module(module) => module,
        HostLibraryEntry::Initializer(_) => {
            panic!("expected a host module");
        }
    };

    assert!(!Arc::ptr_eq(first, second));
}

#[test]
fn preserves_initializer_entry() {
    let library: HostLibrary<Host, Initializer> = HostLibrary::new()
        .initialize(HostInitializer::new("provider:init", nothing as Initializer));

    match library.into_entries().remove(0) {
        HostLibraryEntry::Module(_) => {
            panic!("expected a host initializer");
        }
        HostLibraryEntry::Initializer(initializer) => {
            assert_eq!(initializer.name(), "provider:init");
        }
    }
}

#[test]
fn initializer_reuses_captured_initializer_across_contexts() {
    let calls = Rc::new(Cell::new(0));
    let initializer = HostInitializer::new("provider:setup", {
        let calls = calls.clone();

        move |_scope: &Scope<Ctx<'_>, ()>| -> Result<(), Error> {
            calls.set(calls.get() + 1);

            Ok(())
        }
    });
    let runtime = JsRuntime::new().unwrap();
    let first = JsContext::full(&runtime).unwrap();
    let second = JsContext::full(&runtime).unwrap();

    first.with(|ctx| {
        initializer.clone().initialize(&Scope::detached(ctx)).unwrap();
    });
    second.with(|ctx| {
        initializer.initialize(&Scope::detached(ctx)).unwrap();
    });

    assert_eq!(initializer.name(), "provider:setup");
    assert_eq!(calls.get(), 2);
}

fn double(value: &i32) -> Result<i32, Error> {
    if *value < 0 {
        Err(Error::conversion("negative"))
    } else {
        Ok(value * 2)
    }
}

#[test]
fn arguments_are_taken_by_index() {
    let args = Args::new(vec![1, 2, 3]);

    assert_eq!(args.len(), 3);
    assert!(!args.is_empty());
    assert!(Args::<i32>::new(Vec::new()).is_empty());
    assert_eq!(args.get(1, double).unwrap(), 4);
    assert_eq!(args.get_owned(0, double).unwrap(), 2);
    assert_eq!(args.get_borrow(2, double).unwrap(), 6);
    assert_eq!(args.get_borrow_mut(2, double).unwrap(), 6);
    assert_eq!(args.get_opt(2, double).unwrap(), Some(6));
    assert_eq!(args.get_opt(3, double).unwrap(), None);
    assert_eq!(*args.required(0).unwrap(), 1);
    for error in [
        args.get(3, double).unwrap_err(),
        args.get_owned(3, double).unwrap_err(),
        args.get_borrow(3, double).unwrap_err(),
        args.get_borrow_mut(3, double).unwrap_err(),
        args.required(3).unwrap_err(),
    ] {
        assert_eq!(error.text(), "conversion error: missing host argument at index 3");
    }
    assert_eq!(
        args.required(1_205).unwrap_err().text(),
        "conversion error: missing host argument at index 1205",
    );
}

#[test]
fn the_rest_of_the_arguments_starts_at_an_index() {
    let args = Args::new(vec![1, 2, 3]);
    let same = |(), value: &i32| -> ((), Result<i32, Error>) { ((), Ok(*value)) };

    assert_eq!(args.get_rest(0, (), same).1.unwrap(), vec![1, 2, 3]);
    assert_eq!(args.get_rest(1, (), same).1.unwrap(), vec![2, 3]);
    assert_eq!(args.get_rest(3, (), same).1.unwrap(), Vec::<i32>::new());
    assert_eq!(args.get_rest(9, (), same).1.unwrap(), Vec::<i32>::new());

    let (seen, outcome) = Args::new(vec![1, -2, 3]).get_rest(
        0,
        Vec::new(),
        |mut seen: Vec<i32>, value: &i32| {
            seen.push(*value);
            (seen, double(value))
        },
    );
    assert_eq!(outcome.unwrap_err().text(), "conversion error: negative");
    assert_eq!(seen, vec![1, -2]);
}

#[test]
fn calls_end_with_a_value_or_a_throw() {
    let body = CallableBody::sync(10);

    assert!(!body.is_async());
    assert!(matches!(
        body.call(5, |base: &i32, arg: i32| Ok(base + arg)),
        Completion::Return(15),
    ));
    assert!(matches!(
        body.call(5, |_: &i32, _: i32| Err::<(), _>(Error::unexpected("no"))),
        Completion::Throw(message) if message == "unexpected error: no"
    ));
    assert!(HostFn::new_async(1).into_body().is_async());
    assert!(matches!(HostFn::new(1).into_body(), CallableBody::Sync(1)));
    assert!(matches!(
        CallableBody::asynchronous(1).call((), |_: &i32, _: ()| {
            Err::<(), _>(Error::guest_exception("late"))
        }),
        Completion::Throw(message) if message == "guest exception: late"
    ));
}

#[test]
fn a_deferred_value_is_made_in_a_scope() {
    assert_eq!(
        Deferred::new(|scope: i32| Ok(scope + 1)).to_guest(4, |value: i32| Ok(value * 3)).unwrap(),
        15,
    );
    assert_eq!(
        Deferred::new(|_: i32| Err::<i32, _>(Error::conversion("gone")))
            .to_guest(4, |value: i32| Ok(value))
            .unwrap_err()
            .text(),
        "conversion error: gone",
    );
}

fn written(steps: Vec<Step<i32, i32, i32>>) -> Vec<String> {
    let (log, outcome) = perform(steps, Vec::new(), |mut log: Vec<String>, step| {
        log.push(match step {
            Step::Function { name, body } => format!("fn {name} {}", body.is_async()),
            Step::Value { name, value, writable } => format!("value {name} {value} {writable}"),
            Step::Accessor { name, get, set } => format!("accessor {name} {get:?} {set:?}"),
            Step::Open => "open".to_owned(),
            Step::Close { name } => format!("close {name}"),
        });

        (log, Ok::<(), ()>(()))
    });

    assert!(outcome.is_ok());

    log
}

#[test]
fn members_are_applied_in_definition_order() {
    let mut namespace: Namespace<i32, i32, i32> = Namespace::new();

    namespace
        .function("now", 1)
        .async_function("later", 2)
        .constant("tz", 3)
        .property("count", 4)
        .getter("read", 5)
        .setter("write", 6)
        .accessor("both", 7, 8)
        .object("inner", |inner: &mut Namespace<i32, i32, i32>| {
            inner.constant("deep", 9);
        });

    assert_eq!(
        namespace.names(),
        vec!["now", "later", "tz", "count", "read", "write", "both", "inner"],
    );
    assert_eq!(
        written(namespace.apply()),
        vec![
            "fn now false",
            "fn later true",
            "value tz 3 false",
            "value count 4 true",
            "accessor read Some(5) None",
            "accessor write None Some(6)",
            "accessor both Some(7) Some(8)",
            "open",
            "value deep 9 false",
            "close inner",
        ],
    );
}

#[test]
fn a_host_object_is_built_from_nothing() {
    let object = HostObject::build(|members: &mut Namespace<i32, i32, i32>| {
        members.constant("a", 1).property("b", 2);
    });

    assert_eq!(written(object.to_guest()), vec!["value a 1 false", "value b 2 true"]);
}

#[test]
fn a_refused_step_stops_the_plan() {
    let mut namespace: Namespace<i32, i32, i32> = Namespace::new();
    namespace.constant("a", 1).constant("b", 2).constant("c", 3);

    assert_eq!(
        perform(namespace.apply(), 0, |done: i32, _step: Step<i32, i32, i32>| {
            if done == 1 {
                (done + 1, Err("refused"))
            } else {
                (done + 1, Ok(()))
            }
        }),
        (2, Err("refused")),
    );
}

#[test]
fn members_become_export_values() {
    assert!(matches!(
        Member::<i32, i32, i32>::Constant(3).into_export_value(),
        Ok(Export::Value(3)),
    ));
    assert!(matches!(
        Member::<i32, i32, i32>::Property(4).into_export_value(),
        Ok(Export::Value(4)),
    ));
    assert!(matches!(
        Member::<i32, i32, i32>::Callable(CallableBody::Async(5)).into_export_value(),
        Ok(Export::Function(CallableBody::Async(5))),
    ));
    assert_eq!(
        Member::<i32, i32, i32>::Accessor { get: Some(1), set: None }
            .into_export_value()
            .err()
            .unwrap()
            .text(),
        "unexpected error: accessor members are not valid as module exports",
    );
}

struct Vector2;

impl HostClass for Vector2 {
    const NAME: &'static str = "Vector2";
}

#[test]
fn a_class_is_exported_under_its_name() {
    let mut namespace: Namespace<i32, i32, i32> = Namespace::new();
    namespace.class::<Vector2>(5);

    assert_eq!(written(namespace.apply()), vec!["value Vector2 5 false"]);
}

type Spec = ClassSpec<i32, i32, i32, Namespace<i32, i32, i32>>;

#[test]
fn a_prototype_lists_methods_then_accessors_then_symbols() {
    let mut spec = Spec::new();

    spec.symbol_method(WellKnownSymbol::ToPrimitive, 1)
        .getter("x", 2)
        .method("length", 3)
        .iterable(4)
        .method_mut("moveBy", 5)
        .accessor("y", 6, 7)
        .async_method("later", 8)
        .setter("z", 9)
        .async_method_mut("laterMut", 10);

    let steps = spec
        .prototype()
        .into_iter()
        .map(|step| match step {
            PrototypeStep::Method { name, method } => {
                format!("{name} {} {}", method.is_exclusive(), method.is_async())
            }
            PrototypeStep::Accessor { name, get, set } => format!("{name} {get:?} {set:?}"),
            PrototypeStep::Symbol { symbol, .. } => format!("{symbol:?}"),
        })
        .collect::<Vec<_>>();

    assert_eq!(
        steps,
        vec![
            "length false false",
            "moveBy true false",
            "later false true",
            "laterMut true true",
            "x Some(2) None",
            "y Some(6) Some(7)",
            "z None Some(9)",
            "ToPrimitive",
            "Iterator",
        ],
    );
}

#[test]
fn statics_go_to_the_constructor() {
    let mut spec = Spec::new();
    spec.statics(|statics: &mut Namespace<i32, i32, i32>| {
        statics.constant("dimensions", 2);
    });
    let (constructor, steps) = spec.export(Some("constructor")).ok().unwrap();

    assert_eq!(constructor, "constructor");
    assert_eq!(written(steps), vec!["value dimensions 2 false"]);
    assert_eq!(
        Spec::new().export(None::<u8>).err().unwrap().text(),
        "unexpected error: host class has no constructor",
    );
}

fn borrow_error() -> rquickjs::Error {
    rquickjs::Error::new_loading("borrow")
}

#[test]
fn methods_end_like_calls_once_the_instance_is_borrowed() {
    let sync = MethodSpec::Ref(2);
    let later = MethodSpec::AsyncMut(2);

    assert!(matches!(sync.call(Ok(5), |m: &i32, b: i32| Ok(m * b)), Called::Return(10)));
    assert!(matches!(
        sync.call(Ok(5), |_: &i32, _: i32| Err::<(), _>(Error::unexpected("no"))),
        Called::Throw(message) if message == "unexpected error: no"
    ));
    assert!(matches!(
        sync.call(Err(borrow_error()), |m: &i32, b: i32| Ok(m * b)),
        Called::Fail(_),
    ));
    assert!(matches!(
        later.call(Err(borrow_error()), |m: &i32, b: i32| Ok(m * b)),
        Called::Throw(message) if message == format!("engine error: {}", borrow_error())
    ));
    assert!(matches!(call_accessor(Ok(5), |b: i32| Ok(b + 1)), Called::Return(6)));
    assert!(matches!(
        call_accessor(Err(borrow_error()), |b: i32| Ok(b + 1)),
        Called::Fail(_),
    ));
}

#[test]
fn an_iterator_runs_over_stored_items() {
    let store = |mut stored: Vec<(usize, i32)>, index: usize, value: i32| {
        stored.push((index, value));
        (stored, Ok(()))
    };

    let (stored, outcome) = iterate(
        vec![1, 2],
        Vec::new(),
        |stored, item: i32| (stored, Ok(item * 10)),
        store,
        |stored| (stored, Ok("iterator")),
    );
    assert_eq!(outcome.unwrap(), "iterator");
    assert_eq!(stored, vec![(0, 10), (1, 20)]);

    let (stored, outcome) = iterate(
        vec![1],
        Vec::new(),
        |stored, _: i32| (stored, Err::<i32, _>(Error::conversion("item"))),
        store,
        |stored| (stored, Ok("iterator")),
    );
    assert_eq!(outcome.unwrap_err().text(), "conversion error: item");
    assert!(stored.is_empty());
}
