//! What the registry of a runtime answers from its state.

use std::sync::Arc;
use vstd::prelude::*;

use crate::errors::Error;
use crate::host::module::HostModule;
use crate::native::initializer::NativeInitializer;
use crate::native::module::initializer_views;
use crate::registry::bindings::{binding_views, BindingView, LibraryBinding, ModuleRegistration};
use crate::registry::guest::GuestRegistry;
use crate::registry::state::{
    unloaded, unresolved, ContextKey, GuestId, GuestRegistration, ModuleRegistry, RegistryState,
    StateView,
};

verus! {

/// Whether a context belongs to a guest that is registered.
pub open spec fn belongs<H, D, I, N>(
    state: StateView<H, D, I, N>,
    context: ContextKey,
    guest: u64,
) -> bool {
    state.contexts.dom().contains(context.0) && state.contexts[context.0] == guest
        && state.guests.dom().contains(guest)
}

/// Whether a context belongs to no guest that is registered.
pub open spec fn is_stray<H, D, I, N>(state: StateView<H, D, I, N>, context: ContextKey) -> bool {
    !state.contexts.dom().contains(context.0) || !state.guests.dom().contains(
        state.contexts[context.0],
    )
}

/// In a context that belongs to no guest nothing is found.
pub proof fn law_stray_contexts_find_nothing<H: HostModule, D, I, N>(
    registry: &ModuleRegistry<H, D, I, N>,
    context: ContextKey,
    base: &str,
    name: &str,
    path: Result<String, rquickjs::Error>,
    module: Result<ModuleRegistration<H, D, I>, rquickjs::Error>,
    route: Result<String, Error>,
    host: Option<Arc<H>>,
)
    requires
        is_stray(registry@.state, context),
        call_ensures(ModuleRegistry::<H, D, I, N>::resolve, (registry, context, base, name), path),
        call_ensures(ModuleRegistry::<H, D, I, N>::load, (registry, context, name), module),
        call_ensures(ModuleRegistry::<H, D, I, N>::host_route, (registry, context, name), route),
        call_ensures(ModuleRegistry::<H, D, I, N>::host_module, (registry, context, name), host),
    ensures
        path == Err::<String, rquickjs::Error>(unresolved(base@, name@)),
        module == Err::<ModuleRegistration<H, D, I>, rquickjs::Error>(unloaded(name@)),
        route is Err,
        host is None,
{
}

/// In a context that belongs to a guest exactly that is found which the guest has: its specifiers,
/// its modules, and of both those that are of the host.
pub proof fn law_contexts_find_what_their_guest_has<H: HostModule, D, I, N>(
    registry: &ModuleRegistry<H, D, I, N>,
    context: ContextKey,
    guest: u64,
    base: &str,
    name: &str,
    path: Result<String, rquickjs::Error>,
    module: Result<ModuleRegistration<H, D, I>, rquickjs::Error>,
    route: Result<String, Error>,
    host: Option<Arc<H>>,
)
    requires
        belongs(registry@.state, context, guest),
        call_ensures(ModuleRegistry::<H, D, I, N>::resolve, (registry, context, base, name), path),
        call_ensures(ModuleRegistry::<H, D, I, N>::load, (registry, context, name), module),
        call_ensures(ModuleRegistry::<H, D, I, N>::host_route, (registry, context, name), route),
        call_ensures(ModuleRegistry::<H, D, I, N>::host_module, (registry, context, name), host),
    ensures
        path is Ok <==> registry@.state.guests[guest].specifiers.dom().contains(name@),
        path matches Ok(text) ==> text@ == registry@.state.guests[guest].specifiers[name@],
        module is Ok <==> registry@.state.guests[guest].modules.dom().contains(name@),
        module matches Ok(own) ==> own@ == registry@.state.guests[guest].modules[name@],
        host is Some <==> registry@.state.guests[guest].modules.dom().contains(name@)
            && registry@.state.guests[guest].modules[name@] is Host,
        host matches Some(own) ==> registry@.state.guests[guest].modules[name@]
            == BindingView::<H, D, I>::Host(*own),
        route is Ok ==> path is Ok && route->Ok_0@ == path->Ok_0@
            && registry@.state.guests[guest].modules.dom().contains(path->Ok_0@)
            && registry@.state.guests[guest].modules[path->Ok_0@] is Host,
        path is Ok && registry@.state.guests[guest].modules.dom().contains(path->Ok_0@)
            && registry@.state.guests[guest].modules[path->Ok_0@] is Host ==> route is Ok,
{
}

/// The state of a registry answers as the registry does.
pub proof fn law_states_answer_like_their_registry<H: HostModule, D, I, N>(
    state: &RegistryState<H, D, I, N>,
    registry: &ModuleRegistry<H, D, I, N>,
    context: ContextKey,
    base: &str,
    name: &str,
    own_path: Option<String>,
    path: Result<String, rquickjs::Error>,
    own_module: Option<ModuleRegistration<H, D, I>>,
    module: Result<ModuleRegistration<H, D, I>, rquickjs::Error>,
    own_route: Option<String>,
    route: Result<String, Error>,
    own_host: Option<Arc<H>>,
    host: Option<Arc<H>>,
)
    requires
        state@ == registry@.state,
        call_ensures(RegistryState::<H, D, I, N>::resolve, (state, context, name), own_path),
        call_ensures(ModuleRegistry::<H, D, I, N>::resolve, (registry, context, base, name), path),
        call_ensures(RegistryState::<H, D, I, N>::module, (state, context, name), own_module),
        call_ensures(ModuleRegistry::<H, D, I, N>::load, (registry, context, name), module),
        call_ensures(RegistryState::<H, D, I, N>::host_route, (state, context, name), own_route),
        call_ensures(ModuleRegistry::<H, D, I, N>::host_route, (registry, context, name), route),
        call_ensures(RegistryState::<H, D, I, N>::host_module, (state, context, name), own_host),
        call_ensures(ModuleRegistry::<H, D, I, N>::host_module, (registry, context, name), host),
    ensures
        own_path is Some <==> path is Ok,
        own_path matches Some(text) ==> path->Ok_0@ == text@,
        own_module is Some <==> module is Ok,
        own_module matches Some(own) ==> module->Ok_0@ == own@,
        own_route is Some <==> route is Ok,
        own_route matches Some(text) ==> route->Ok_0@ == text@,
        own_host is Some <==> host is Some,
        own_host matches Some(own) ==> *host.unwrap() == *own,
{
}

/// The state of a registry changes as the registry does: a new one is empty, and guests are
/// registered and removed and exports staged and taken alike.
pub proof fn law_states_change_like_their_registry<H: HostModule, D, I, N>(
    fresh: RegistryState<H, D, I, N>,
    runtime_bindings: Vec<LibraryBinding<H, D, I>>,
    made: ModuleRegistry<H, D, I, N>,
    context: ContextKey,
    path: String,
    text: &str,
    namespace: N,
    guest: GuestId,
    staging: &mut RegistryState<H, D, I, N>,
    staged: &mut ModuleRegistry<H, D, I, N>,
    taking: &mut RegistryState<H, D, I, N>,
    own_taken: Option<N>,
    taken_from: &mut ModuleRegistry<H, D, I, N>,
    taken: Option<N>,
    removing: &mut RegistryState<H, D, I, N>,
    removed: &mut ModuleRegistry<H, D, I, N>,
)
    requires
        call_ensures(<RegistryState<H, D, I, N> as Default>::default, (), fresh),
        call_ensures(ModuleRegistry::<H, D, I, N>::new, (runtime_bindings,), made),
        old(staging)@ == old(staged)@.state,
        call_ensures(RegistryState::<H, D, I, N>::stage, (staging, context, path, namespace), ()),
        call_ensures(ModuleRegistry::<H, D, I, N>::stage, (staged, context, path, namespace), ()),
        old(taking)@ == old(taken_from)@.state,
        call_ensures(RegistryState::<H, D, I, N>::take_staged, (taking, context, text), own_taken),
        call_ensures(
            ModuleRegistry::<H, D, I, N>::take_staged,
            (taken_from, context, text),
            taken,
        ),
        old(removing)@ == old(removed)@.state,
        call_ensures(RegistryState::<H, D, I, N>::unregister, (removing, guest), ()),
        call_ensures(ModuleRegistry::<H, D, I, N>::unregister_guest, (removed, guest), ()),
    ensures
        fresh@ == made@.state,
        fresh@.guests.dom() =~= Set::<u64>::empty(),
        fresh@.contexts.dom() =~= Set::<usize>::empty(),
        final(staging)@ == final(staged)@.state,
        final(taking)@ == final(taken_from)@.state,
        own_taken == taken,
        final(removing)@ == final(removed)@.state,
{
}

/// Registering a guest with all bindings in the state of a registry is registering it in the
/// registry with those that the registry does not have.
pub proof fn law_states_register_like_their_registry<H: HostModule, D, I, N>(
    state: &mut RegistryState<H, D, I, N>,
    context: ContextKey,
    bindings: &Vec<LibraryBinding<H, D, I>>,
    own_registration: Result<GuestRegistration<I>, Error>,
    registry: &mut ModuleRegistry<H, D, I, N>,
    own: Vec<LibraryBinding<H, D, I>>,
    registration: Result<GuestRegistration<I>, Error>,
)
    requires
        old(state)@ == old(registry)@.state,
        binding_views(bindings@) == old(registry)@.bindings + binding_views(own@),
        call_ensures(
            RegistryState::<H, D, I, N>::register,
            (state, context, bindings),
            own_registration,
        ),
        call_ensures(
            ModuleRegistry::<H, D, I, N>::register_guest,
            (registry, context, own),
            registration,
        ),
    ensures
        final(state)@ == final(registry)@.state,
        own_registration is Ok <==> registration is Ok,
        own_registration matches Ok(given) ==> registration->Ok_0@ == given@,
{
}

/// The registry of a new guest is what a registration keeps of the guest, and its initializers are
/// those that the registration hands out.
pub proof fn law_guests_are_made_like_registrations<H: HostModule, D, I, N>(
    state: &mut RegistryState<H, D, I, N>,
    context: ContextKey,
    bindings: &Vec<LibraryBinding<H, D, I>>,
    registration: GuestRegistration<I>,
    id: GuestId,
    made: (GuestRegistry<H, D, I, N>, Vec<NativeInitializer<I>>),
    at: usize,
)
    requires
        call_ensures(
            RegistryState::<H, D, I, N>::register,
            (state, context, bindings),
            Ok::<GuestRegistration<I>, Error>(registration),
        ),
        call_ensures(GuestRegistration::<I>::id, (&registration,), id),
        call_ensures(GuestRegistry::<H, D, I, N>::new, (context.0, id.0, bindings), made),
        call_ensures(GuestRegistry::<H, D, I, N>::context, (&made.0,), at),
    ensures
        final(state)@.guests.dom().contains(id.0),
        final(state)@.guests[id.0] == made.0@,
        final(state)@.contexts.dom().contains(context.0),
        final(state)@.contexts[context.0] == id.0,
        initializer_views(made.1@) == registration@.1,
        at == context.0,
{
}

/// The registry of a guest answers as the state does for a context of the guest.
pub proof fn law_guests_answer_like_their_state<H: HostModule, D, I, N>(
    guest: &GuestRegistry<H, D, I, N>,
    state: &RegistryState<H, D, I, N>,
    context: ContextKey,
    id: u64,
    name: &str,
    own_path: Option<String>,
    path: Option<String>,
    own_module: Option<ModuleRegistration<H, D, I>>,
    module: Option<ModuleRegistration<H, D, I>>,
    own_route: Option<String>,
    route: Option<String>,
    own_host: Option<Arc<H>>,
    host: Option<Arc<H>>,
)
    requires
        belongs(state@, context, id),
        state@.guests[id] == guest@,
        call_ensures(GuestRegistry::<H, D, I, N>::resolve, (guest, name), own_path),
        call_ensures(RegistryState::<H, D, I, N>::resolve, (state, context, name), path),
        call_ensures(GuestRegistry::<H, D, I, N>::module, (guest, name), own_module),
        call_ensures(RegistryState::<H, D, I, N>::module, (state, context, name), module),
        call_ensures(GuestRegistry::<H, D, I, N>::host_route, (guest, name), own_route),
        call_ensures(RegistryState::<H, D, I, N>::host_route, (state, context, name), route),
        call_ensures(GuestRegistry::<H, D, I, N>::host_module, (guest, name), own_host),
        call_ensures(RegistryState::<H, D, I, N>::host_module, (state, context, name), host),
    ensures
        own_path is Some <==> path is Some,
        own_path matches Some(text) ==> path.unwrap()@ == text@,
        own_module is Some <==> module is Some,
        own_module matches Some(own) ==> module.unwrap()@ == own@,
        own_route is Some <==> route is Some,
        own_route matches Some(text) ==> route.unwrap()@ == text@,
        own_host is Some <==> host is Some,
        own_host matches Some(own) ==> *host.unwrap() == *own,
{
}

/// What is staged for a guest is handed out once under its route, and nothing else of the guest
/// changes.
pub proof fn law_guests_hand_out_staged_exports_once<H: HostModule, D, I, N>(
    guest: &mut GuestRegistry<H, D, I, N>,
    path: String,
    namespace: N,
    first: &mut GuestRegistry<H, D, I, N>,
    text: &str,
    taken: Option<N>,
    again: &mut GuestRegistry<H, D, I, N>,
    second: Option<N>,
    other: &str,
    elsewhere: &mut GuestRegistry<H, D, I, N>,
    found: Option<N>,
    untouched: &mut GuestRegistry<H, D, I, N>,
    before: Option<N>,
)
    requires
        call_ensures(GuestRegistry::<H, D, I, N>::stage, (guest, path, namespace), ()),
        *old(first) == *final(guest),
        text@ == path@,
        call_ensures(GuestRegistry::<H, D, I, N>::take_staged, (first, text), taken),
        *old(again) == *final(first),
        call_ensures(GuestRegistry::<H, D, I, N>::take_staged, (again, text), second),
        other@ != path@,
        *old(elsewhere) == *final(guest),
        call_ensures(GuestRegistry::<H, D, I, N>::take_staged, (elsewhere, other), found),
        *old(untouched) == *old(guest),
        call_ensures(GuestRegistry::<H, D, I, N>::take_staged, (untouched, other), before),
    ensures
        taken == Some(namespace),
        second is None,
        found == before,
        final(guest)@.context == old(guest)@.context,
        final(guest)@.specifiers == old(guest)@.specifiers,
        final(guest)@.modules == old(guest)@.modules,
        final(first)@.context == old(guest)@.context,
        final(first)@.specifiers == old(guest)@.specifiers,
        final(first)@.modules == old(guest)@.modules,
{
}

} // verus!
