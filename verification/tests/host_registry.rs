use std::sync::Arc;

use guestjs::host::loader::{HostModuleAdapter, HostResolver};
use guestjs::host::module::{AdapterError, Exports, HostModule};
use guestjs::host::namespace::{Export, Namespace};
use guestjs::host::registry::HostRegistry;
use guestjs::registry::state::ContextKey;
use rquickjs::{Context, Runtime};

struct TestModule {
    name: &'static str,
}

impl HostModule for TestModule {
    type Function = ();
    type Value = i32;
    type Setter = ();

    fn name(&self) -> &str {
        self.name
    }

    fn build(&self, exports: &mut Exports<(), i32, ()>) {
        exports.default(7).members().constant("answer", 42);
    }
}

type Registry = HostRegistry<TestModule, Namespace<(), i32, ()>>;

fn shared(name: &'static str) -> Arc<TestModule> {
    Arc::new(TestModule { name })
}

#[test]
fn assigns_distinct_guest_ids() {
    let mut registry = Registry::default();

    let first = registry.register_context(ContextKey(1)).unwrap();
    let second = registry.register_context(ContextKey(2)).unwrap();

    assert_ne!(first, second);
    assert_eq!(registry.resolve_context(ContextKey(1)), Some(first));
    assert_eq!(registry.resolve_context(ContextKey(2)), Some(second));
}

#[test]
fn remaps_reused_context_without_merging_guests() {
    let mut registry = Registry::default();
    let context = ContextKey(1);

    let first = registry.register_context(context).unwrap();
    registry.register_scoped(first, shared("first"));

    let second = registry.register_context(context).unwrap();
    registry.register_scoped(second, shared("second"));

    assert_eq!(registry.resolve_context(context), Some(second));
    assert!(registry.lookup(first, "first").is_some());
    assert!(registry.lookup(first, "second").is_none());
    assert!(registry.lookup(second, "first").is_none());
    assert!(registry.lookup(second, "second").is_some());

    registry.unregister_guest(first);

    assert_eq!(registry.resolve_context(context), Some(second));
}

#[test]
fn cleanup_is_scoped_and_idempotent() {
    let mut registry = Registry::default();
    let first = registry.register_context(ContextKey(1)).unwrap();
    let second = registry.register_context(ContextKey(2)).unwrap();
    let first_module = shared("first");

    registry.register_scoped(first, first_module.clone());
    registry.register_scoped(second, shared("second"));
    registry.stage(first, "staged".to_owned(), Namespace::new());

    registry.unregister_guest(first);

    assert_eq!(Arc::strong_count(&first_module), 1);
    assert_eq!(registry.resolve_context(ContextKey(1)), None);
    assert_eq!(registry.resolve_context(ContextKey(2)), Some(second));
    assert!(registry.take_staged(first, "staged").is_none());
    assert!(registry.lookup(second, "second").is_some());

    registry.unregister_guest(first);

    assert_eq!(registry.resolve_context(ContextKey(2)), Some(second));
    assert!(registry.lookup(second, "second").is_some());
}

#[test]
fn scoped_modules_precede_global_modules() {
    let mut registry = Registry::default();
    let guest = registry.register_context(ContextKey(1)).unwrap();
    let scoped = shared("shared");

    registry.register_global(shared("shared"));
    registry.register_scoped(guest, scoped.clone());

    assert!(Arc::ptr_eq(&registry.lookup(guest, "shared").unwrap(), &scoped));
}

#[test]
fn staged_namespaces_are_isolated_by_guest() {
    let mut registry = Registry::default();
    let first = registry.register_context(ContextKey(1)).unwrap();
    let second = registry.register_context(ContextKey(2)).unwrap();

    registry.stage(first, "module".to_owned(), Namespace::new());

    assert!(registry.take_staged(second, "module").is_none());
    assert!(registry.take_staged(first, "module").is_some());
}

#[test]
fn cleanup_removes_guest_state_and_preserves_globals() {
    let mut registry = Registry::default();
    let context = ContextKey(1);
    let guest = registry.register_context(context).unwrap();
    let remaining = registry.register_context(ContextKey(2)).unwrap();
    let scoped = shared("scoped");

    registry.register_global(shared("global"));
    registry.register_scoped(guest, scoped.clone());
    registry.stage(guest, "staged".to_owned(), Namespace::new());

    registry.unregister_guest(guest);

    assert_eq!(registry.resolve_context(context), None);
    assert_eq!(Arc::strong_count(&scoped), 1);
    assert!(registry.lookup(guest, "scoped").is_none());
    assert!(registry.take_staged(guest, "staged").is_none());
    assert!(registry.lookup(remaining, "global").is_some());
}

#[test]
fn replaced_modules_come_back() {
    let mut registry = Registry::default();
    let guest = registry.register_context(ContextKey(1)).unwrap();
    let first = shared("shared");
    let second = shared("shared");

    assert!(registry.register_global(first.clone()).is_none());
    assert!(Arc::ptr_eq(&registry.register_global(second.clone()).unwrap(), &first));
    assert!(registry.register_scoped(guest, first.clone()).is_none());
    assert!(Arc::ptr_eq(&registry.register_scoped(guest, second).unwrap(), &first));
    assert!(registry.unregister_guest(guest));
    assert!(!registry.unregister_guest(guest));
    assert!(Arc::ptr_eq(&registry.register_scoped(guest, first.clone()).unwrap(), &first));
    assert!(registry.stage(guest, "x".to_owned(), Namespace::new()).is_some());
    assert!(!registry.is_known(guest, "shared"));
}

#[test]
fn engine_contexts_belong_to_their_guests() {
    let runtime = Runtime::new().unwrap();
    let first = Context::full(&runtime).unwrap();
    let second = Context::full(&runtime).unwrap();
    let mut registry = Registry::default();

    let guest = first.with(|ctx| registry.register_guest(&ctx).unwrap());
    first.with(|ctx| assert_eq!(registry.guest_id(&ctx), Some(guest)));
    second.with(|ctx| assert_eq!(registry.guest_id(&ctx), None));
}

#[test]
fn known_specifiers_are_their_own_routes() {
    let mut registry = Registry::default();
    let context = ContextKey(1);
    registry.register_context(context).unwrap();
    registry.register_global(shared("host:a"));

    assert!(matches!(
        HostResolver::resolve(&registry, context, "entry", "host:a"),
        Ok(route) if route == "host:a"
    ));
    assert!(matches!(
        HostResolver::resolve(&registry, context, "entry", "host:b"),
        Err(AdapterError::Engine(rquickjs::Error::Resolving { base, name, message: None }))
            if base == "entry" && name == "host:b"
    ));
    assert!(matches!(
        HostResolver::resolve(&registry, ContextKey(2), "entry", "host:a"),
        Err(AdapterError::Throw(message)) if message == "guest context is not registered"
    ));
}

#[test]
fn modules_are_declared_and_evaluated_by_name() {
    let mut registry = Registry::default();
    let context = ContextKey(1);
    registry.register_context(context).unwrap();
    registry.register_global(shared("host:a"));

    let (declared, outcome) = HostModuleAdapter::declare(
        &mut registry,
        context,
        "host:a".to_owned(),
        Vec::new(),
        |mut declared: Vec<String>, name: String| {
            declared.push(name);

            (declared, Ok::<(), ()>(()))
        },
    );
    assert!(outcome.is_ok());
    assert_eq!(declared, vec!["default", "answer"]);

    let (exported, outcome) = HostModuleAdapter::evaluate(
        &mut registry,
        context,
        "host:a",
        Vec::new(),
        |mut exported: Vec<(String, i32)>, name: String, export| {
            match export {
                Export::Value(value) => exported.push((name, value)),
                _ => panic!("expected a value"),
            }

            (exported, Ok::<(), ()>(()))
        },
    );
    assert!(outcome.is_ok());
    assert_eq!(exported, vec![("default".to_owned(), 7), ("answer".to_owned(), 42)]);
}

#[test]
fn missing_modules_are_thrown_by_name() {
    let mut registry = Registry::default();
    let context = ContextKey(1);
    let accept = |(), _name: String| ((), Ok::<(), ()>(()));
    let drop_export = |(), _name: String, _export: Export<(), i32, ()>| ((), Ok::<(), ()>(()));

    assert!(matches!(
        HostModuleAdapter::declare(&mut registry, context, "host:a".to_owned(), (), accept).1,
        Err(AdapterError::Throw(message)) if message == "guest context is not registered"
    ));
    registry.register_context(context).unwrap();
    assert!(matches!(
        HostModuleAdapter::declare(&mut registry, context, "host:a".to_owned(), (), accept).1,
        Err(AdapterError::Throw(message)) if message == "no host module registered as \"host:a\""
    ));
    assert!(matches!(
        HostModuleAdapter::evaluate(&mut registry, context, "host:a", (), drop_export).1,
        Err(AdapterError::Throw(message))
            if message == "no staged exports for host module \"host:a\""
    ));
    assert!(matches!(
        HostModuleAdapter::registry::<u8, ()>(None),
        Err(AdapterError::Throw(message)) if message == "host registry is not installed"
    ));
}
