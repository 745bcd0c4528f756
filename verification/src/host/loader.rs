//! Resolution and definition of the host modules of a [`HostRegistry`].

use vstd::prelude::*;

use crate::host::module::{
    declare_names, export_members, members_exported, names_declared, throws, AdapterError, Exports,
    HostModule,
};
use crate::host::namespace::{Export, Namespace};
use crate::host::registry::HostRegistry;
use crate::registry::guest::lookup;
use crate::registry::state::{resolving_error, unresolved, ContextKey, GuestId};
use crate::text::{debug_quoted, joined, quoted};

verus! {

/// The engine-side definition of the host modules of a registry.
pub struct HostModuleAdapter;

impl HostModuleAdapter {
    /// Returns the registry that is installed in an engine.
    pub fn registry<R, E>(installed: Option<R>) -> (r: Result<R, AdapterError<E>>)
        ensures
            match installed {
                Some(registry) => r == Ok::<R, AdapterError<E>>(registry),
                None => r matches Err(error) && throws(error, "host registry is not installed"@),
            },
    {
        match installed {
            Some(registry) => Ok(registry),
            None => Err(AdapterError::Throw("host registry is not installed".to_owned())),
        }
    }

    /// Returns the guest that a context belongs to.
    pub fn guest_id<H: HostModule, N, E>(registry: &HostRegistry<H, N>, context: ContextKey) -> (r:
        Result<GuestId, AdapterError<E>>)
        ensures
            match lookup(registry@.contexts, context.0) {
                Some(guest) => r == Ok::<GuestId, AdapterError<E>>(GuestId(guest)),
                None => r matches Err(error) && throws(error, "guest context is not registered"@),
            },
    {
        match registry.resolve_context(context) {
            Some(guest) => Ok(guest),
            None => Err(AdapterError::Throw("guest context is not registered".to_owned())),
        }
    }

    /// Declares the exports that a host module has defined, and stages them for its evaluation once
    /// the engine has accepted every name.
    pub fn declare_exports<H, E, W, F>(
        registry: &mut HostRegistry<H, Namespace<H::Function, H::Value, H::Setter>>,
        guest: GuestId,
        name: String,
        namespace: Namespace<H::Function, H::Value, H::Setter>,
        state: W,
        declare: F,
    ) -> (r: (W, Result<(), AdapterError<E>>)) where
        H: HostModule,
        F: Fn(W, String) -> (W, Result<(), E>),

        requires
            forall|state: W, name: String| call_requires(declare, (state, name)),
        ensures
            names_declared(namespace@, declare, state, r.0, r.1),
            r.1 is Ok ==> final(registry)@ == old(registry)@.with_staged(guest, name@, namespace),
            r.1 is Err ==> final(registry)@ == old(registry)@,
    {
        let (end, outcome) = declare_names(&namespace, state, declare);
        match outcome {
            Ok(_) => {
                registry.stage(guest, name, namespace);
                (end, Ok(()))
            }
            Err(error) => (end, Err(AdapterError::Engine(error))),
        }
    }

    /// Declares the exports of the host module of a name. The module defines its exports anew for
    /// every declaration.
    pub fn declare<H, E, W, F>(
        registry: &mut HostRegistry<H, Namespace<H::Function, H::Value, H::Setter>>,
        context: ContextKey,
        name: String,
        state: W,
        declare: F,
    ) -> (r: (W, Result<(), AdapterError<E>>)) where
        H: HostModule,
        F: Fn(W, String) -> (W, Result<(), E>),

        requires
            forall|state: W, name: String| call_requires(declare, (state, name)),
        ensures
            match lookup(old(registry)@.contexts, context.0) {
                None => r.0 == state && (r.1 matches Err(error) && throws(
                    error,
                    "guest context is not registered"@,
                )) && final(registry)@ == old(registry)@,
                Some(guest) => {
                    &&& old(registry)@.found(GuestId(guest), name@) is None ==> (r.0 == state && (
                    r.1 matches Err(error) && throws(
                        error,
                        "no host module registered as "@ + debug_quoted(name@),
                    )) && final(registry)@ == old(registry)@)
                    &&& old(registry)@.found(GuestId(guest), name@) matches Some(module) ==> exists|
                        namespace: Namespace<H::Function, H::Value, H::Setter>,
                    |
                        #![trigger names_declared(namespace@, declare, state, r.0, r.1)]
                        module.builds(Seq::empty(), namespace@) && names_declared(
                            namespace@,
                            declare,
                            state,
                            r.0,
                            r.1,
                        ) && final(registry)@ == (if r.1 is Ok {
                            old(registry)@.with_staged(GuestId(guest), name@, namespace)
                        } else {
                            old(registry)@
                        })
                },
            },
    {
        let guest = match Self::guest_id(registry, context) {
            Ok(guest) => guest,
            Err(error) => {
                return (state, Err(error));
            }
        };
        match registry.lookup(guest, name.as_str()) {
            Some(module) => {
                let mut exports = Exports::new();
                module.build(&mut exports);
                let namespace = exports.into_namespace();
                Self::declare_exports(registry, guest, name, namespace, state, declare)
            }
            None => {
                let name = quoted(name.as_str());
                let message = joined("no host module registered as ", name.as_str());
                (state, Err(AdapterError::Throw(message)))
            }
        }
    }

    /// Exports what is staged for the host module of a name. It is staged no longer then, also
    /// where the engine refuses an export.
    pub fn evaluate<H, E, W, F>(
        registry: &mut HostRegistry<H, Namespace<H::Function, H::Value, H::Setter>>,
        context: ContextKey,
        name: &str,
        state: W,
        export: F,
    ) -> (r: (W, Result<(), AdapterError<E>>)) where
        H: HostModule,
        F: Fn(W, String, Export<H::Function, H::Value, H::Setter>) -> (W, Result<(), E>),

        requires
            forall|state: W, name: String, value: Export<H::Function, H::Value, H::Setter>|
                call_requires(export, (state, name, value)),
        ensures
            match lookup(old(registry)@.contexts, context.0) {
                None => r.0 == state && (r.1 matches Err(error) && throws(
                    error,
                    "guest context is not registered"@,
                )) && final(registry)@ == old(registry)@,
                Some(guest) => {
                    &&& match old(registry)@.staged_at(GuestId(guest), name@) {
                        Some(namespace) => members_exported(namespace@, export, state, r.0, r.1),
                        None => r.0 == state && (r.1 matches Err(error) && throws(
                            error,
                            "no staged exports for host module "@ + debug_quoted(name@),
                        )),
                    }
                    &&& final(registry)@ == old(registry)@.without_staged(GuestId(guest), name@)
                },
            },
    {
        let guest = match Self::guest_id(registry, context) {
            Ok(guest) => guest,
            Err(error) => {
                return (state, Err(error));
            }
        };
        match registry.take_staged(guest, name) {
            Some(namespace) => export_members(namespace, state, export),
            None => {
                let name = quoted(name);
                let message = joined("no staged exports for host module ", name.as_str());
                (state, Err(AdapterError::Throw(message)))
            }
        }
    }
}

/// A resolver for the specifiers of host modules.
pub struct HostResolver;

impl HostResolver {
    /// Resolves a specifier that a module of a guest imports. A specifier that the guest sees a
    /// module under is its own route; any other is the engine's resolving error.
    pub fn resolve<H: HostModule, N>(
        registry: &HostRegistry<H, N>,
        context: ContextKey,
        base: &str,
        name: &str,
    ) -> (r: Result<String, AdapterError<rquickjs::Error>>)
        ensures
            match lookup(registry@.contexts, context.0) {
                None => r matches Err(error) && throws(error, "guest context is not registered"@),
                Some(guest) => if registry@.found(GuestId(guest), name@) is Some {
                    r matches Ok(path) && path@ == name@
                } else {
                    r matches Err(AdapterError::Engine(error)) && error == unresolved(base@, name@)
                },
            },
    {
        let guest = match HostModuleAdapter::guest_id(registry, context) {
            Ok(guest) => guest,
            Err(error) => {
                return Err(error);
            }
        };
        if registry.is_known(guest, name) {
            Ok(name.to_owned())
        } else {
            Err(AdapterError::Engine(resolving_error(base, name)))
        }
    }
}

} // verus!
