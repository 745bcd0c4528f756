use std::cell::Cell;
use std::rc::Rc;

use guestjs::native::library::{NativeLibrary, NativeLibraryEntry};
use guestjs::native::{NativeInitializer, NativeModule};
use rquickjs::module::ModuleDef;
use rquickjs::{Context as JsContext, Ctx, Module as JsModule, Runtime as JsRuntime};

struct FirstModule;

impl ModuleDef for FirstModule {}

struct SecondModule;

impl ModuleDef for SecondModule {}

struct TestModule;

impl ModuleDef for TestModule {}

fn test_module(ctx: Ctx<'_>, route: Vec<u8>) -> rquickjs::Result<()> {
    JsModule::declare_def::<TestModule, _>(ctx, route).map(|_| ())
}

enum Definition {
    First(FirstModule),
    Second(SecondModule),
}

type Initializer = fn(&Ctx<'_>) -> rquickjs::Result<()>;

fn nothing(_ctx: &Ctx<'_>) -> rquickjs::Result<()> {
    Ok(())
}

#[test]
fn converts_native_module_into_library() {
    let module: NativeModule<FirstModule, Initializer> = NativeModule::new("first", FirstModule);

    match NativeLibrary::from(module).into_entries().remove(0) {
        NativeLibraryEntry::Module(module) => {
            assert_eq!(module.name(), "first");
        }
        NativeLibraryEntry::Initializer(_) => {
            panic!("expected a native module");
        }
    }
}

#[test]
fn extends_library_in_entry_order() {
    let entries = NativeLibrary::new()
        .with(NativeModule::new("first", Definition::First(FirstModule)))
        .initialize(NativeInitializer::new("first:init", nothing as Initializer))
        .extend(
            NativeLibrary::new()
                .with(NativeModule::new("second", Definition::Second(SecondModule)))
                .initialize(NativeInitializer::new("second:init", nothing as Initializer)),
        )
        .into_entries();

    assert!(matches!(
        &entries[0],
        NativeLibraryEntry::Module(module)
            if module.name() == "first" && matches!(module.definition(), Definition::First(_))
    ));
    assert!(matches!(
        &entries[1],
        NativeLibraryEntry::Initializer(initializer) if initializer.name() == "first:init"
    ));
    assert!(matches!(
        &entries[2],
        NativeLibraryEntry::Module(module)
            if module.name() == "second" && matches!(module.definition(), Definition::Second(_))
    ));
    assert!(matches!(
        &entries[3],
        NativeLibraryEntry::Initializer(initializer) if initializer.name() == "second:init"
    ));
}

#[test]
fn retains_module_metadata() {
    let module = NativeModule::new("test", TestModule)
        .alias("test")
        .alias("node:test")
        .alias("node:test")
        .alias("test/alias")
        .initialize(NativeInitializer::new("test:init", nothing as Initializer));

    assert_eq!(module.name(), "test");
    assert_eq!(*module.aliases(), ["node:test", "test/alias"]);
    assert_eq!(module.initializers()[0].name(), "test:init");
}

#[test]
fn declares_module_in_distinct_contexts() {
    let module: NativeModule<_, Initializer> = NativeModule::new("test", test_module);
    let runtime = JsRuntime::new().unwrap();
    let first = JsContext::full(&runtime).unwrap();
    let second = JsContext::full(&runtime).unwrap();

    first.with(|ctx| {
        module.declare(ctx, b"test:first".to_vec()).unwrap();
    });
    second.with(|ctx| {
        module.declare(ctx, b"test:second".to_vec()).unwrap();
    });
}

#[test]
fn reuses_captured_initializer_across_contexts() {
    let calls = Rc::new(Cell::new(0));
    let initializer = NativeInitializer::new("provider:setup", {
        let calls = calls.clone();

        move |_ctx: &Ctx<'_>| -> rquickjs::Result<()> {
            calls.set(calls.get() + 1);

            Ok(())
        }
    });
    let runtime = JsRuntime::new().unwrap();
    let first = JsContext::full(&runtime).unwrap();
    let second = JsContext::full(&runtime).unwrap();

    first.with(|ctx| initializer.initialize(&ctx).unwrap());
    second.with(|ctx| initializer.initialize(&ctx).unwrap());

    assert_eq!(initializer.name(), "provider:setup");
    assert_eq!(calls.get(), 2);
}

#[test]
fn copies_of_a_module_share_one_definition() {
    let module: NativeModule<String, Initializer> =
        NativeModule::new("shared", "definition".to_owned()).alias("node:shared");
    let copy = module.clone();

    assert!(std::ptr::eq(module.definition(), copy.definition()));
    assert_eq!(copy.name(), "shared");
    assert_eq!(*copy.aliases(), ["node:shared"]);
}
