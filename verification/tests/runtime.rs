use std::cell::Cell;
use std::rc::Rc;
use std::sync::Arc;
use std::time::Duration;

use guestjs::errors::Error;
use guestjs::execution::Cancellation;
use guestjs::host::library::HostLibrary;
use guestjs::host::module::{Exports, HostModule};
use guestjs::host::HostInitializer;
use guestjs::native::library::NativeLibrary;
use guestjs::native::{NativeInitializer, NativeModule};
use guestjs::registry::state::{ContextKey, GuestId};
use guestjs::runtime::{
    install_registry, interrupts, run_initializers, EngineSetting, GuestBuilder, GuestContext,
    RuntimeBuilder, Scope, TranspilerChoice,
};
use guestjs::transpiler::{OxcTranspiler, Transpiler};

struct Host(&'static str);

impl HostModule for Host {
    type Function = ();
    type Value = ();
    type Setter = ();

    fn name(&self) -> &str {
        self.0
    }

    fn build(&self, _exports: &mut Exports<(), (), ()>) {}
}

struct Shouting;

impl Transpiler for Shouting {
    fn transpile(&self, name: &str, source: &str) -> Result<String, Error> {
        Ok(format!("{name}:{}", source.to_uppercase()))
    }
}

type Builder = RuntimeBuilder<Host, &'static str, u8, &'static str, Shouting>;

#[test]
fn an_untouched_runtime_has_no_limits() {
    let mut parts = Builder::default().build::<()>(true);

    assert!(parts.settings.is_empty());
    assert!(parts.interrupt_handler.is_none());
    assert!(matches!(parts.transpiler, TranspilerChoice::Oxc(_)));
    assert!(!parts.policy.is_cancelled());
    assert!(!parts.policy.should_gc());
    assert!(!parts.policy.should_abort());
    parts.registry.register_guest(ContextKey(1), Vec::new()).ok().unwrap();
    assert!(parts.registry.resolve(ContextKey(1), "entry", "anything").is_err());
}

#[test]
fn limits_are_set_in_a_fixed_order() {
    let parts = Builder::default()
        .gc_threshold(3)
        .max_stack_size(2)
        .memory_limit(9)
        .memory_limit(1)
        .interrupt_handler("handler")
        .transpiler(Shouting)
        .build::<()>(true);

    assert_eq!(
        parts.settings,
        vec![
            EngineSetting::MemoryLimit(1),
            EngineSetting::MaxStackSize(2),
            EngineSetting::GcThreshold(3),
        ],
    );
    assert_eq!(parts.interrupt_handler, Some("handler"));
    assert_eq!(parts.transpiler.transpile("a", "x").unwrap(), "a:X");
}

#[test]
fn execution_limits_reach_the_policy() {
    let cancellation = Cancellation::new();
    let mut parts = Builder::default()
        .execution_timeout(Duration::from_nanos(7))
        .cancellation(Some(Arc::new(cancellation.clone())))
        .gc_after(2)
        .build::<()>(true);

    parts.policy.begin_at(false, 10).unwrap();
    assert!(!parts.policy.should_abort_at(false, 16));
    assert!(parts.policy.should_abort_at(false, 17));
    assert!(!parts.policy.should_gc());
    assert!(parts.policy.should_gc());
    cancellation.cancel();
    assert!(parts.policy.is_cancelled());
}

#[test]
fn runtime_libraries_reach_every_guest_and_guest_libraries_one() {
    let mut parts = Builder::default()
        .bind(HostLibrary::from(Host("host:a")).initialize(HostInitializer::new("init:a", 1)))
        .bind_native(
            NativeLibrary::new()
                .with(NativeModule::new("native", "definition").alias("node:native"))
                .initialize(NativeInitializer::new("init:b", 2)),
        )
        .build::<()>(true);
    let own = GuestBuilder::new()
        .bind(HostLibrary::from(Host("host:own")))
        .bind_native(NativeLibrary::from(NativeModule::new("own", "definition")))
        .into_bindings();

    assert_eq!(own.len(), 2);
    let first = parts.registry.register_guest(ContextKey(1), own).ok().unwrap();
    let second = parts.registry.register_guest(ContextKey(2), Vec::new()).ok().unwrap();

    for context in [ContextKey(1), ContextKey(2)] {
        assert!(parts.registry.resolve(context, "entry", "host:a").is_ok());
        assert!(parts.registry.resolve(context, "entry", "node:native").is_ok());
    }
    assert!(parts.registry.resolve(ContextKey(1), "entry", "own").is_ok());
    assert!(parts.registry.resolve(ContextKey(1), "entry", "host:own").is_ok());
    assert!(parts.registry.resolve(ContextKey(2), "entry", "own").is_err());
    assert!(parts.registry.resolve(ContextKey(2), "entry", "host:own").is_err());
    assert_ne!(first.id(), second.id());
    assert_eq!(
        second
            .into_initializers()
            .iter()
            .map(|initializer| *initializer.callback())
            .collect::<Vec<_>>(),
        vec![1, 2],
    );
}

#[test]
fn limits_interrupt_before_the_handler_is_asked() {
    let asked = Cell::new(0);
    let handler = || {
        asked.set(asked.get() + 1);
        true
    };

    assert!(interrupts(true, Some(&handler)));
    assert_eq!(asked.get(), 0);
    assert!(interrupts(false, Some(&handler)));
    assert_eq!(asked.get(), 1);
    assert!(!interrupts(false, Some(|| false)));
    assert!(!interrupts(false, None::<fn() -> bool>));
}

#[test]
fn the_registry_is_installed_once() {
    assert!(install_registry(true, || panic!("stored twice")).is_ok());
    assert!(install_registry(false, || true).is_ok());
    assert_eq!(
        install_registry(false, || false).unwrap_err().text(),
        "unexpected error: failed to store the module registry as userdata",
    );
}

#[test]
fn initializers_run_in_order_until_one_fails() {
    let named = |name: &str, fails: bool| NativeInitializer::new(name, fails);
    let run = |mut ran: Vec<String>, initializer: &NativeInitializer<bool>| {
        ran.push(initializer.name().to_owned());
        if *initializer.callback() {
            (ran, Err(Error::engine("failed")))
        } else {
            (ran, Ok(()))
        }
    };

    let (ran, outcome) =
        run_initializers(vec![named("a", false), named("b", false)], Vec::new(), run);
    assert!(outcome.is_ok());
    assert_eq!(ran, vec!["a", "b"]);

    let (ran, outcome) =
        run_initializers(vec![named("c", false), named("d", true), named("e", false)], ran, run);
    assert_eq!(outcome.unwrap_err().text(), "engine error: failed");
    assert_eq!(ran, vec!["a", "b", "c", "d"]);
}

fn guest(transpiler: TranspilerChoice<Shouting>) -> Rc<GuestContext<(), Shouting>> {
    Rc::new(GuestContext { inner: (), id: GuestId(0), transpiler: Rc::new(transpiler) })
}

#[test]
fn sources_are_kept_without_a_transpiler() {
    let kept = Builder::default().build::<()>(false);
    let custom = Builder::default().transpiler(Shouting).build::<()>(false);

    assert!(matches!(kept.transpiler, TranspilerChoice::Absent));
    assert!(matches!(custom.transpiler, TranspilerChoice::Custom(Shouting)));
}

#[test]
fn guest_sources_are_transpiled_in_an_owned_scope() {
    let custom = Scope::new((), guest(TranspilerChoice::Custom(Shouting)));
    let oxc = Scope::new((), guest(TranspilerChoice::Oxc(OxcTranspiler)));
    let absent = Scope::new((), guest(TranspilerChoice::Absent));
    let detached: Scope<(), GuestContext<(), Shouting>> = Scope::detached(());

    assert_eq!(custom.guest_source("m.js", "let x").unwrap(), "m.js:LET X");
    assert_eq!(oxc.guest_source("m.js", "let x: y").unwrap(), "let x: y");
    assert_eq!(oxc.guest_source("m.ts", "let x: number;").unwrap(), "let x;\n");
    assert_eq!(oxc.guest_source("a:m.ts", "let x: number;").unwrap(), "let x;\n");
    assert_eq!(absent.guest_source("m.ts", "let x: number;").unwrap(), "let x: number;");
    assert_eq!(
        detached.guest_source("m.js", "let x").unwrap_err().text(),
        "unexpected error: cannot build an owned guest handle on detached scope",
    );
}

#[test]
fn host_modules_are_found_from_an_owned_scope() {
    let mut parts = Builder::default().bind(HostLibrary::from(Host("host:a"))).build::<()>(true);
    let scope = Scope::new((), Rc::new(()));
    let detached: Scope<(), ()> = Scope::detached(());
    parts.registry.register_guest(ContextKey(1), Vec::new()).ok().unwrap();

    assert_eq!(
        scope.host_route(Some(&parts.registry), ContextKey(1), "host:a").unwrap(),
        parts.registry.resolve(ContextKey(1), "entry", "host:a").unwrap(),
    );
    assert_eq!(
        scope.host_route(Some(&parts.registry), ContextKey(1), "host:b").unwrap_err().text(),
        "unexpected error: host module `host:b` is not registered",
    );
    assert_eq!(
        scope
            .host_route::<Host, &str, u8, ()>(None, ContextKey(1), "host:a")
            .unwrap_err()
            .text(),
        "unexpected error: module registry is not installed",
    );
    assert_eq!(
        detached
            .host_route(Some(&parts.registry), ContextKey(1), "host:a")
            .unwrap_err()
            .text(),
        "unexpected error: cannot build an owned guest handle on detached scope",
    );
}
