use std::cell::RefCell;
use std::rc::Rc;
use std::sync::Arc;

use guestjs::errors::Error;
use guestjs::host::module::{AdapterError, Exports, HostModule, HostModuleAdapter};
use guestjs::host::namespace::{Export, Namespace};
use guestjs::native::{NativeInitializer, NativeModule};
use guestjs::registry::bindings::{LibraryBinding, ModuleRegistration};
use guestjs::registry::state::{ContextKey, GuestId, ModuleRegistry, RegistryState};
use rquickjs::module::ModuleDef;
use rquickjs::{
    Context as JsContext, Ctx, Module as JsModule, Object as JsObject, Runtime as JsRuntime,
};

struct TestHost {
    name: &'static str,
}

impl HostModule for TestHost {
    type Function = ();
    type Value = i32;
    type Setter = ();

    fn name(&self) -> &str {
        self.name
    }

    fn build(&self, exports: &mut Exports<(), i32, ()>) {
        if self.name == "host:value" {
            exports.members().constant("value", 42);
        }
        if self.name == "host:accessor" {
            exports.members().constant("first", 1).getter("second", 2);
        }
    }
}

struct FirstNative;

impl ModuleDef for FirstNative {}

struct SecondNative;

impl ModuleDef for SecondNative {}

type Definition = fn(Ctx<'_>, Vec<u8>) -> rquickjs::Result<()>;
type Initializer = Box<dyn Fn(&Ctx<'_>) -> rquickjs::Result<()>>;
type Exported = Namespace<(), i32, ()>;
type State = RegistryState<TestHost, Definition, Initializer, Exported>;
type Registry = ModuleRegistry<TestHost, Definition, Initializer, Exported>;
type Binding = LibraryBinding<TestHost, Definition, Initializer>;
type Module = NativeModule<Definition, Initializer>;

fn first_native(ctx: Ctx<'_>, route: Vec<u8>) -> rquickjs::Result<()> {
    JsModule::declare_def::<FirstNative, _>(ctx, route).map(|_| ())
}

fn second_native(ctx: Ctx<'_>, route: Vec<u8>) -> rquickjs::Result<()> {
    JsModule::declare_def::<SecondNative, _>(ctx, route).map(|_| ())
}

fn shared(name: &'static str) -> Arc<TestHost> {
    Arc::new(TestHost { name })
}

fn binding(name: &'static str) -> Binding {
    LibraryBinding::Host(shared(name))
}

fn native(name: &str, definition: Definition) -> Module {
    NativeModule::new(name, definition)
}

fn quiet(name: &str) -> NativeInitializer<Initializer> {
    NativeInitializer::new(name, Box::new(|_ctx: &Ctx<'_>| Ok(())) as Initializer)
}

fn noted(
    name: &str,
    calls: &Rc<RefCell<Vec<&'static str>>>,
    call: &'static str,
) -> NativeInitializer<Initializer> {
    let calls = calls.clone();

    NativeInitializer::new(
        name,
        Box::new(move |_ctx: &Ctx<'_>| {
            calls.borrow_mut().push(call);

            Ok(())
        }) as Initializer,
    )
}

fn register(state: &mut State, context: ContextKey, bindings: Vec<Binding>) -> GuestId {
    state.register(context, &bindings).ok().unwrap().id()
}

fn host_behind(state: &State, context: ContextKey, specifier: &str) -> Arc<TestHost> {
    state.host_module(context, &state.resolve(context, specifier).unwrap()).unwrap()
}

#[test]
fn registry_assigns_distinct_guest_ids() {
    let mut state = State::default();

    let first = register(&mut state, ContextKey(1), Vec::new());
    let second = register(&mut state, ContextKey(2), Vec::new());

    assert_ne!(first, second);
}

#[test]
fn registry_remaps_reused_context_without_merging_guests() {
    let mut state = State::default();
    let context = ContextKey(1);
    let first = register(&mut state, context, vec![binding("first")]);
    register(&mut state, context, vec![binding("second")]);

    assert!(state.resolve(context, "first").is_none());
    assert!(state.resolve(context, "second").is_some());

    state.unregister(first);

    assert!(state.resolve(context, "second").is_some());
}

#[test]
fn registry_cleanup_is_scoped_and_idempotent() {
    let mut state = State::default();
    let first_context = ContextKey(1);
    let second_context = ContextKey(2);
    let first_module = shared("first");
    let first = register(
        &mut state,
        first_context,
        vec![LibraryBinding::Host(first_module.clone())],
    );
    register(&mut state, second_context, vec![binding("second")]);

    state.stage(first_context, "staged".to_owned(), Namespace::new());
    state.unregister(first);

    assert_eq!(Arc::strong_count(&first_module), 1);
    assert!(state.take_staged(first_context, "staged").is_none());
    assert!(state.resolve(second_context, "second").is_some());

    state.unregister(first);

    assert!(state.resolve(second_context, "second").is_some());
}

#[test]
fn registry_staged_namespaces_are_isolated_by_guest() {
    let mut state = State::default();
    let first = ContextKey(1);
    let second = ContextKey(2);

    register(&mut state, first, Vec::new());
    register(&mut state, second, Vec::new());
    state.stage(first, "module".to_owned(), Namespace::new());

    assert!(state.take_staged(second, "module").is_none());
    assert!(state.take_staged(first, "module").is_some());
}

#[test]
fn cleanup_preserves_global_bindings() {
    let mut state = State::default();
    let removed_context = ContextKey(1);
    let remaining_context = ContextKey(2);
    let scoped = shared("scoped");
    let removed = register(
        &mut state,
        removed_context,
        vec![binding("global"), LibraryBinding::Host(scoped.clone())],
    );

    register(&mut state, remaining_context, vec![binding("global")]);
    state.stage(removed_context, "staged".to_owned(), Namespace::new());
    state.unregister(removed);

    assert_eq!(Arc::strong_count(&scoped), 1);
    assert!(state.resolve(removed_context, "scoped").is_none());
    assert!(state.take_staged(removed_context, "staged").is_none());
    assert!(state.resolve(remaining_context, "global").is_some());
}

#[test]
fn global_host_is_inherited_by_multiple_guests() {
    let module = shared("shared");
    let bindings = vec![LibraryBinding::Host(module.clone())];
    let mut state = State::default();
    let first = ContextKey(1);
    let second = ContextKey(2);

    state.register(first, &bindings).ok().unwrap();
    state.register(second, &bindings).ok().unwrap();

    assert!(Arc::ptr_eq(&host_behind(&state, first, "shared"), &module));
    assert!(Arc::ptr_eq(&host_behind(&state, second, "shared"), &module));
}

#[test]
fn local_host_replaces_global_host() {
    let local = shared("shared");
    let mut state = State::default();
    let context = ContextKey(1);

    register(
        &mut state,
        context,
        vec![LibraryBinding::Host(shared("shared")), LibraryBinding::Host(local.clone())],
    );

    assert!(Arc::ptr_eq(&host_behind(&state, context, "shared"), &local));
}

#[test]
fn native_replaces_earlier_host() {
    let mut state = State::default();
    let context = ContextKey(1);

    register(
        &mut state,
        context,
        vec![binding("shared"), LibraryBinding::Native(native("shared", first_native))],
    );

    assert!(matches!(
        state.module(context, &state.resolve(context, "shared").unwrap()),
        Some(ModuleRegistration::Native(_)),
    ));
}

#[test]
fn host_replaces_earlier_native() {
    let mut state = State::default();
    let context = ContextKey(1);

    register(
        &mut state,
        context,
        vec![LibraryBinding::Native(native("shared", first_native)), binding("shared")],
    );

    assert!(matches!(
        state.module(context, &state.resolve(context, "shared").unwrap()),
        Some(ModuleRegistration::Host(_)),
    ));
}

#[test]
fn later_library_entry_wins() {
    let second = shared("shared");
    let mut state = State::default();
    let context = ContextKey(1);

    register(
        &mut state,
        context,
        vec![LibraryBinding::Host(shared("shared")), LibraryBinding::Host(second.clone())],
    );

    assert!(Arc::ptr_eq(&host_behind(&state, context, "shared"), &second));
}

#[test]
fn aliases_share_one_private_route() {
    let mut state = State::default();
    let context = ContextKey(1);

    register(
        &mut state,
        context,
        vec![LibraryBinding::Native(
            native("module", first_native).alias("module:alias").alias("node:module"),
        )],
    );

    assert_eq!(state.resolve(context, "module"), state.resolve(context, "module:alias"));
    assert_eq!(state.resolve(context, "module"), state.resolve(context, "node:module"));
}

#[test]
fn replacing_alias_preserves_other_specifiers() {
    let mut state = State::default();
    let context = ContextKey(1);

    register(
        &mut state,
        context,
        vec![
            LibraryBinding::Native(
                native("module", first_native).alias("module:alias").alias("node:module"),
            ),
            LibraryBinding::Native(native("node:module", second_native)),
        ],
    );

    assert_eq!(state.resolve(context, "module"), state.resolve(context, "module:alias"));
    assert_ne!(state.resolve(context, "module"), state.resolve(context, "node:module"));
}

#[test]
fn overwritten_native_omits_associated_initialization() {
    let mut state = State::default();

    assert!(
        state
            .register(
                ContextKey(1),
                &vec![
                    LibraryBinding::Native(
                        native("shared", first_native).initialize(quiet("native:init")),
                    ),
                    binding("shared"),
                ],
            )
            .ok()
            .unwrap()
            .into_initializers()
            .is_empty()
    );
}

#[test]
fn standalone_initializer_survives_module_override() {
    let mut state = State::default();

    assert_eq!(
        state
            .register(
                ContextKey(1),
                &vec![
                    LibraryBinding::Initializer(quiet("dependency:init")),
                    LibraryBinding::Native(
                        native("shared", first_native).initialize(quiet("module:init")),
                    ),
                    binding("shared"),
                ],
            )
            .ok()
            .unwrap()
            .into_initializers()
            .iter()
            .map(|initializer| initializer.name())
            .collect::<Vec<_>>(),
        vec!["dependency:init"],
    );
}

#[test]
fn duplicate_initializers_keep_last_callback_in_final_order() {
    let calls = Rc::new(RefCell::new(Vec::new()));
    let mut state = State::default();
    let initializers = state
        .register(
            ContextKey(1),
            &vec![
                LibraryBinding::Initializer(noted("shared", &calls, "first")),
                LibraryBinding::Initializer(noted("other", &calls, "other")),
                LibraryBinding::Initializer(noted("shared", &calls, "last")),
            ],
        )
        .ok()
        .unwrap()
        .into_initializers();
    let runtime = JsRuntime::new().unwrap();
    let context = JsContext::full(&runtime).unwrap();

    assert_eq!(
        initializers.iter().map(|initializer| initializer.name()).collect::<Vec<_>>(),
        vec!["other", "shared"],
    );

    context.with(|ctx| {
        for initializer in initializers {
            initializer.initialize(&ctx).unwrap();
        }
    });

    assert_eq!(*calls.borrow(), vec!["other", "last"]);
}

#[test]
fn host_lookup_rejects_native_winner() {
    let mut registry =
        Registry::new(vec![LibraryBinding::Native(native("shared", first_native))]);
    let runtime = JsRuntime::new().unwrap();
    let context = JsContext::full(&runtime).unwrap();

    context.with(|ctx| {
        let key = ContextKey::new(&ctx);
        registry.register_guest(key, Vec::new()).ok().unwrap();

        assert_eq!(
            registry.host_route(key, "shared").unwrap_err().text(),
            "unexpected error: host module `shared` is not registered",
        );
    });
}

fn load(registry: &Registry, ctx: &Ctx<'_>, route: &str) -> rquickjs::Result<()> {
    match registry.load(ContextKey::new(ctx), route)? {
        ModuleRegistration::Native(module) => {
            module.declare(ctx.clone(), route.as_bytes().to_vec())
        }
        ModuleRegistration::Host(_) => panic!("expected a native module"),
    }
}

#[test]
fn native_definition_loads_in_distinct_contexts() {
    let mut registry =
        Registry::new(vec![LibraryBinding::Native(native("native", first_native))]);
    let runtime = JsRuntime::new().unwrap();
    let first = JsContext::full(&runtime).unwrap();
    let second = JsContext::full(&runtime).unwrap();

    first.with(|ctx| {
        let key = ContextKey::new(&ctx);
        registry.register_guest(key, Vec::new()).ok().unwrap();

        load(&registry, &ctx, &registry.resolve(key, "entry", "native").unwrap()).unwrap();
    });
    second.with(|ctx| {
        let key = ContextKey::new(&ctx);
        registry.register_guest(key, Vec::new()).ok().unwrap();

        load(&registry, &ctx, &registry.resolve(key, "entry", "native").unwrap()).unwrap();
    });
}

#[test]
fn loader_rejects_another_guests_private_route() {
    let mut registry =
        Registry::new(vec![LibraryBinding::Native(native("native", first_native))]);
    let runtime = JsRuntime::new().unwrap();
    let first = JsContext::full(&runtime).unwrap();
    let second = JsContext::full(&runtime).unwrap();
    let first_route = first.with(|ctx| {
        let key = ContextKey::new(&ctx);
        registry.register_guest(key, Vec::new()).ok().unwrap();

        registry.resolve(key, "entry", "native").unwrap()
    });

    second.with(|ctx| {
        registry.register_guest(ContextKey::new(&ctx), Vec::new()).ok().unwrap();

        assert!(load(&registry, &ctx, &first_route).err().unwrap().is_loading());
    });
}

#[test]
fn unknown_names_are_reported_by_the_engine() {
    let mut registry = Registry::new(Vec::new());
    let key = ContextKey(3);
    registry.register_guest(key, Vec::new()).ok().unwrap();

    assert!(matches!(
        registry.resolve(key, "entry", "unknown"),
        Err(rquickjs::Error::Resolving { base, name, message: None })
            if base == "entry" && name == "unknown"
    ));
    assert!(matches!(
        registry.load(key, "guestjs:module:0:0"),
        Err(rquickjs::Error::Loading { name, message: None }) if name == "guestjs:module:0:0"
    ));
}

#[test]
fn host_adapter_builds_registered_exports() {
    let mut registry = Registry::new(vec![binding("host:value")]);
    let runtime = JsRuntime::new().unwrap();
    let context = JsContext::full(&runtime).unwrap();

    context.with(|ctx| {
        let key = ContextKey::new(&ctx);
        registry.register_guest(key, Vec::new()).ok().unwrap();

        let route = registry.resolve(key, "entry", "host:value").unwrap();
        assert!(matches!(registry.load(key, &route), Ok(ModuleRegistration::Host(_))));

        let (names, declared) = HostModuleAdapter::declare(
            &mut registry,
            key,
            route.clone(),
            Vec::new(),
            |mut names: Vec<String>, name: String| {
                names.push(name);

                (names, Ok::<(), rquickjs::Error>(()))
            },
        );
        assert!(declared.is_ok());
        assert_eq!(names, vec!["value"]);

        let (module, evaluated) = HostModuleAdapter::evaluate(
            &mut registry,
            key,
            &route,
            JsObject::new(ctx.clone()).unwrap(),
            |module: JsObject<'_>, name: String, export| {
                let outcome = match export {
                    Export::Value(value) => module.set(name, value),
                    _ => panic!("expected a value"),
                };

                (module, outcome)
            },
        );
        assert!(evaluated.is_ok());

        assert_eq!(module.get::<_, i32>("value").unwrap(), 42);
    });
}

fn accept(_: (), _name: String) -> ((), Result<(), &'static str>) {
    ((), Ok(()))
}

fn drop_export(
    _: (),
    _name: String,
    _export: Export<(), i32, ()>,
) -> ((), Result<(), &'static str>) {
    ((), Ok(()))
}

#[test]
fn staged_exports_are_evaluated_once() {
    let mut registry = Registry::new(vec![binding("host:value")]);
    let key = ContextKey(7);
    registry.register_guest(key, Vec::new()).ok().unwrap();
    let route = registry.host_route(key, "host:value").unwrap();

    assert!(HostModuleAdapter::declare(&mut registry, key, route.clone(), (), accept).1.is_ok());
    assert!(HostModuleAdapter::evaluate(&mut registry, key, &route, (), drop_export).1.is_ok());
    assert!(matches!(
        HostModuleAdapter::evaluate(&mut registry, key, &route, (), drop_export).1,
        Err(AdapterError::Throw(message))
            if message == format!("no staged exports for host module route {route:?}")
    ));
}

#[test]
fn a_refused_name_stages_nothing() {
    let mut registry = Registry::new(vec![binding("host:value")]);
    let key = ContextKey(7);
    registry.register_guest(key, Vec::new()).ok().unwrap();
    let route = registry.host_route(key, "host:value").unwrap();

    assert!(matches!(
        HostModuleAdapter::declare(&mut registry, key, route.clone(), (), |(), _| ((), Err("full"))).1,
        Err(AdapterError::Engine("full"))
    ));
    assert!(registry.take_staged(key, &route).is_none());
}

#[test]
fn an_unknown_route_declares_nothing() {
    let mut registry = Registry::new(Vec::new());
    let key = ContextKey(7);
    registry.register_guest(key, Vec::new()).ok().unwrap();

    assert!(matches!(
        HostModuleAdapter::declare(&mut registry, key, "a \"b\"\n".to_owned(), (), accept).1,
        Err(AdapterError::Throw(message))
            if message == "no host module registered for route \"a \\\"b\\\"\\n\""
    ));
    assert!(matches!(
        HostModuleAdapter::registry::<u8, ()>(None),
        Err(AdapterError::Throw(message)) if message == "module registry is not installed"
    ));
    assert!(matches!(HostModuleAdapter::registry::<u8, ()>(Some(3)), Ok(3)));
}

#[test]
fn an_accessor_is_no_module_export() {
    let mut registry = Registry::new(vec![binding("host:accessor")]);
    let key = ContextKey(7);
    registry.register_guest(key, Vec::new()).ok().unwrap();
    let route = registry.host_route(key, "host:accessor").unwrap();

    assert!(HostModuleAdapter::declare(&mut registry, key, route.clone(), (), accept).1.is_ok());

    let (exported, outcome) = HostModuleAdapter::evaluate(
        &mut registry,
        key,
        &route,
        Vec::new(),
        |mut exported: Vec<String>, name: String, _export| {
            exported.push(name);

            (exported, Ok::<(), ()>(()))
        },
    );
    assert!(matches!(
        outcome,
        Err(AdapterError::Throw(message))
            if message == "unexpected error: accessor members are not valid as module exports"
    ));
    assert_eq!(exported, vec!["first"]);
}

#[test]
fn guest_bindings_come_behind_runtime_bindings() {
    let local = shared("shared");
    let mut registry = Registry::new(vec![binding("shared"), binding("common")]);
    let first = ContextKey(1);
    let second = ContextKey(2);

    registry
        .register_guest(first, vec![LibraryBinding::Host(local.clone())])
        .ok()
        .unwrap();
    registry.register_guest(second, Vec::new()).ok().unwrap();

    let first_route = registry.host_route(first, "shared").unwrap();
    let second_route = registry.host_route(second, "shared").unwrap();
    assert!(Arc::ptr_eq(&registry.host_module(first, &first_route).unwrap(), &local));
    assert!(!Arc::ptr_eq(&registry.host_module(second, &second_route).unwrap(), &local));
    assert!(registry.host_route(first, "common").is_ok());
    assert_ne!(first_route, second_route);
    assert!(registry.host_module(second, &first_route).is_none());
}

#[test]
fn a_guest_that_left_resolves_nothing() {
    let mut registry = Registry::new(vec![binding("shared")]);
    let key = ContextKey(1);
    let guest = registry.register_guest(key, Vec::new()).ok().unwrap().id();

    assert!(registry.resolve(key, "entry", "shared").is_ok());
    registry.unregister_guest(guest);
    assert!(registry.resolve(key, "entry", "shared").err().unwrap().is_resolving());
    assert!(registry.resolve(ContextKey(9), "entry", "shared").is_err());
}

#[test]
fn host_initializers_run_like_native_ones() {
    let mut state = State::default();
    let names = state
        .register(
            ContextKey(1),
            &vec![
                LibraryBinding::Native(
                    native("a", first_native).initialize(quiet("one")).initialize(quiet("two")),
                ),
                LibraryBinding::Initializer(quiet("one")),
                LibraryBinding::Native(native("b", second_native).initialize(quiet("three"))),
            ],
        )
        .ok()
        .unwrap()
        .into_initializers()
        .iter()
        .map(|initializer| initializer.name().to_owned())
        .collect::<Vec<_>>();

    assert_eq!(names, vec!["two", "one", "three"]);
}

#[test]
fn errors_of_a_missing_host_module_name_it() {
    let registry = Registry::new(Vec::new());

    assert!(matches!(
        registry.host_route(ContextKey(1), "absent"),
        Err(Error::Unexpected { message, source: None })
            if message == "host module `absent` is not registered"
    ));
}
