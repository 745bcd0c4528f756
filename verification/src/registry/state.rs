//! The registries of all guests of a runtime.

use std::collections::HashMap;
use std::sync::Arc;
use vstd::prelude::*;

use crate::errors::Error;
use crate::host::module::HostModule;
use crate::native::initializer::NativeInitializer;
use crate::native::module::initializer_views;
use crate::registry::bindings::{
    binding_views, BindingView, LibraryBinding, ModuleRegistration,
};
use crate::registry::guest::{lookup, module_of, text_of, GuestRegistry};
use crate::registry::routes::{fresh_guest, initializers_of, route, GuestView};
use crate::text::joined;

verus! {

/// The identity of a guest.
#[derive(Clone, Copy, Debug, PartialEq, Eq, Hash, Structural)]
pub struct GuestId(pub u64);

/// The identity of an engine context.
#[derive(Clone, Copy, Debug, PartialEq, Eq, Hash, Structural)]
pub struct ContextKey(pub usize);

/// `rquickjs::Ctx::as_raw`: the address at which the engine keeps a context. It depends on the
/// machine; nothing is claimed of it.
#[verifier::external_body]
fn context_address(ctx: &rquickjs::Ctx<'_>) -> usize {
    ctx.as_raw().as_ptr() as usize
}

/// The engine's error of a specifier that leads nowhere, by the module that imports it and the
/// specifier.
pub uninterp spec fn unresolved(base: Seq<char>, name: Seq<char>) -> rquickjs::Error;

/// The engine's error of a route without a module, by the route.
pub uninterp spec fn unloaded(path: Seq<char>) -> rquickjs::Error;

/// `rquickjs::Error::new_resolving`: the error of a specifier that leads nowhere, which holds the
/// two texts and nothing else.
#[verifier::external_body]
pub(crate) fn resolving_error(base: &str, name: &str) -> (r: rquickjs::Error)
    ensures
        r == unresolved(base@, name@),
{
    rquickjs::Error::new_resolving(base, name)
}

/// `rquickjs::Error::new_loading`: the error of a route without a module, which holds the route and
/// nothing else.
#[verifier::external_body]
fn loading_error(name: &str) -> (r: rquickjs::Error)
    ensures
        r == unloaded(name@),
{
    rquickjs::Error::new_loading(name)
}

impl ContextKey {
    /// Whether the key is made of an address at which the engine says that it keeps a context.
    pub closed spec fn is_key_of(self, ctx: rquickjs::Ctx<'_>) -> bool {
        call_ensures(context_address, (&ctx,), self.0)
    }

    /// Returns the key of an engine context. While the context lives, no other context has it.
    pub fn new(ctx: &rquickjs::Ctx<'_>) -> (r: Self)
        ensures
            r.is_key_of(*ctx),
    {
        ContextKey(context_address(ctx))
    }
}

/// A guest as it was registered.
pub struct GuestRegistration<I> {
    id: GuestId,
    initializers: Vec<NativeInitializer<I>>,
}

impl<I> View for GuestRegistration<I> {
    type V = (GuestId, Seq<(Seq<char>, I)>);

    /// The guest and the initializers that it runs.
    closed spec fn view(&self) -> (GuestId, Seq<(Seq<char>, I)>) {
        (self.id, initializer_views(self.initializers@))
    }
}

impl<I> GuestRegistration<I> {
    /// Returns the guest.
    pub fn id(&self) -> (r: GuestId)
        ensures
            r == self@.0,
    {
        self.id
    }

    /// Returns the initializers that the guest runs, in order.
    pub fn into_initializers(self) -> (r: Vec<NativeInitializer<I>>)
        ensures
            initializer_views(r@) == self@.1,
    {
        self.initializers
    }
}

/// What the registry of all guests stands for.
#[verifier::ext_equal]
pub struct StateView<H, D, I, N> {
    pub next_guest: u64,
    pub contexts: Map<usize, u64>,
    pub guests: Map<u64, GuestView<H, D, I, N>>,
}

impl<H, D, I, N> StateView<H, D, I, N> {
    /// The registry without guests.
    pub open spec fn empty() -> Self {
        StateView { next_guest: 0, contexts: Map::empty(), guests: Map::empty() }
    }

    /// The guest that a context belongs to.
    pub open spec fn guest_of(self, context: ContextKey) -> Option<u64> {
        match lookup(self.contexts, context.0) {
            Some(guest) => if self.guests.dom().contains(guest) {
                Some(guest)
            } else {
                None
            },
            None => None,
        }
    }

    /// The registry of the guest that a context belongs to.
    pub open spec fn registry_of(self, context: ContextKey) -> Option<GuestView<H, D, I, N>> {
        match self.guest_of(context) {
            Some(guest) => Some(self.guests[guest]),
            None => None,
        }
    }

    /// The route of a specifier in a context.
    pub open spec fn resolved(self, context: ContextKey, name: Seq<char>) -> Option<Seq<char>> {
        match self.registry_of(context) {
            Some(registry) => lookup(registry.specifiers, name),
            None => None,
        }
    }

    /// The module of a route in a context.
    pub open spec fn loaded(self, context: ContextKey, path: Seq<char>) -> Option<
        BindingView<H, D, I>,
    > {
        match self.registry_of(context) {
            Some(registry) => lookup(registry.modules, path),
            None => None,
        }
    }

    /// The route of a specifier that leads to a host module in a context.
    pub open spec fn host_route_of(self, context: ContextKey, name: Seq<char>) -> Option<
        Seq<char>,
    > {
        match self.registry_of(context) {
            Some(registry) => registry.host_route_of(name),
            None => None,
        }
    }

    /// The host module of a route in a context.
    pub open spec fn host_module_of(self, context: ContextKey, path: Seq<char>) -> Option<H> {
        match self.registry_of(context) {
            Some(registry) => registry.host_module_of(path),
            None => None,
        }
    }

    /// What is staged under a route in a context.
    pub open spec fn staged_at(self, context: ContextKey, path: Seq<char>) -> Option<N> {
        match self.registry_of(context) {
            Some(registry) => lookup(registry.staged, path),
            None => None,
        }
    }

    /// The registry with one more guest, to which the context belongs from then on.
    pub open spec fn with_guest(
        self,
        context: ContextKey,
        bindings: Seq<BindingView<H, D, I>>,
    ) -> Self where H: HostModule {
        StateView {
            next_guest: (self.next_guest + 1) as u64,
            contexts: self.contexts.insert(context.0, self.next_guest),
            guests: self.guests.insert(
                self.next_guest,
                fresh_guest(context.0, self.next_guest, bindings),
            ),
        }
    }

    /// The registry with exports staged for the guest of a context.
    pub open spec fn with_staged(self, context: ContextKey, path: Seq<char>, namespace: N) -> Self {
        match self.guest_of(context) {
            Some(guest) => StateView {
                guests: self.guests.insert(
                    guest,
                    GuestView {
                        staged: self.guests[guest].staged.insert(path, namespace),
                        ..self.guests[guest]
                    },
                ),
                ..self
            },
            None => self,
        }
    }

    /// The registry without what is staged under a route for the guest of a context.
    pub open spec fn without_staged(self, context: ContextKey, path: Seq<char>) -> Self {
        match self.guest_of(context) {
            Some(guest) => StateView {
                guests: self.guests.insert(
                    guest,
                    GuestView {
                        staged: self.guests[guest].staged.remove(path),
                        ..self.guests[guest]
                    },
                ),
                ..self
            },
            None => self,
        }
    }

    /// The registry without a guest. Its context belongs to no guest from then on, unless it
    /// belongs to another one by now.
    pub open spec fn without_guest(self, guest: GuestId) -> Self {
        if self.guests.dom().contains(guest.0) {
            let context = self.guests[guest.0].context;
            StateView {
                guests: self.guests.remove(guest.0),
                contexts: if lookup(self.contexts, context) == Some(guest.0) {
                    self.contexts.remove(context)
                } else {
                    self.contexts
                },
                ..self
            }
        } else {
            self
        }
    }

    /// Whether every guest is older than the next one, and every context that belongs to a guest is
    /// that guest's own.
    pub open spec fn well_formed(self) -> bool {
        &&& forall|guest: u64| #[trigger] self.guests.dom().contains(guest) ==> guest
            < self.next_guest
        &&& forall|context: usize| #[trigger]
            self.contexts.dom().contains(context) ==> self.guests.dom().contains(
                self.contexts[context],
            ) && self.guests[self.contexts[context]].context == context
    }
}

impl<H, D, I, N> StateView<H, D, I, N> {
    /// Whether every route in the registry of a guest is a route of that guest.
    pub open spec fn keeps_routes_private(self) -> bool {
        forall|guest: u64, path: Seq<char>|
            #![trigger self.guests[guest].modules.dom().contains(path)]
            self.guests.dom().contains(guest) && self.guests[guest].modules.dom().contains(path)
                ==> exists|i: int| 0 <= i && path == #[trigger] route(guest, i)
    }
}

/// The registry of all guests of a runtime.
pub struct RegistryState<H, D, I, N> {
    next_guest: u64,
    contexts: HashMap<usize, u64>,
    guests: HashMap<u64, GuestRegistry<H, D, I, N>>,
}

spec fn guest_values<H, D, I, N>(guests: Map<u64, GuestRegistry<H, D, I, N>>) -> Map<
    u64,
    GuestView<H, D, I, N>,
> {
    guests.map_values(|guest: GuestRegistry<H, D, I, N>| guest@)
}

impl<H, D, I, N> View for RegistryState<H, D, I, N> {
    type V = StateView<H, D, I, N>;

    closed spec fn view(&self) -> StateView<H, D, I, N> {
        StateView {
            next_guest: self.next_guest,
            contexts: self.contexts@,
            guests: guest_values(self.guests@),
        }
    }
}

impl<H, D, I, N> Default for RegistryState<H, D, I, N> {
    fn default() -> (r: Self)
        ensures
            r@ == StateView::<H, D, I, N>::empty(),
    {
        let r = RegistryState { next_guest: 0, contexts: HashMap::new(), guests: HashMap::new() };
        assert(r@ =~= StateView::<H, D, I, N>::empty());
        r
    }
}

impl<H: HostModule, D, I, N> RegistryState<H, D, I, N> {
    fn guest_id(&self, context: ContextKey) -> (r: Option<u64>)
        ensures
            r == self@.guest_of(context),
    {
        broadcast use vstd::std_specs::hash::group_hash_axioms;

        match self.contexts.get(&context.0) {
            Some(guest) => if self.guests.contains_key(guest) {
                Some(*guest)
            } else {
                None
            },
            None => None,
        }
    }

    fn guest(&self, context: ContextKey) -> (r: Option<&GuestRegistry<H, D, I, N>>)
        ensures
            match r {
                Some(registry) => self@.registry_of(context) == Some(registry@),
                None => self@.registry_of(context) is None,
            },
    {
        broadcast use vstd::std_specs::hash::group_hash_axioms;

        match self.contexts.get(&context.0) {
            Some(guest) => self.guests.get(guest),
            None => None,
        }
    }

    /// Registers a guest under a context. Guest identifiers are never used twice, and when they
    /// have run out no guest is registered.
    pub fn register(
        &mut self,
        context: ContextKey,
        bindings: &Vec<LibraryBinding<H, D, I>>,
    ) -> (r: Result<GuestRegistration<I>, Error>)
        ensures
            old(self)@.next_guest < u64::MAX ==> (r matches Ok(registration) && registration@ == (
                GuestId(old(self)@.next_guest),
                initializers_of(binding_views(bindings@)),
            ) && final(self)@ == old(self)@.with_guest(context, binding_views(bindings@))),
            old(self)@.next_guest == u64::MAX ==> (r matches Err(error) && error is Unexpected
                && error.details() == Some(
                ("guest identifier space exhausted"@, None::<Seq<char>>),
            ) && final(self)@ == old(self)@),
    {
        broadcast use vstd::std_specs::hash::group_hash_axioms;

        let guest: u64 = self.next_guest;
        match guest.checked_add(1) {
            Some(next) => {
                self.next_guest = next;
            }
            None => {
                return Err(Error::unexpected("guest identifier space exhausted"));
            }
        }
        let (registry, initializers) = GuestRegistry::new(context.0, guest, bindings);
        let ghost view = registry@;
        self.contexts.insert(context.0, guest);
        self.guests.insert(guest, registry);
        assert(guest_values(self.guests@) =~= guest_values(old(self).guests@).insert(guest, view));
        assert(self@ =~= old(self)@.with_guest(context, binding_views(bindings@)));
        Ok(GuestRegistration { id: GuestId(guest), initializers })
    }

    /// Returns the route of a specifier in a context.
    pub fn resolve(&self, context: ContextKey, name: &str) -> (r: Option<String>)
        ensures
            text_of(r) == self@.resolved(context, name@),
    {
        match self.guest(context) {
            Some(registry) => registry.resolve(name),
            None => None,
        }
    }

    /// Returns the module of a route in a context.
    pub fn module(&self, context: ContextKey, path: &str) -> (r: Option<
        ModuleRegistration<H, D, I>,
    >)
        ensures
            module_of(r) == self@.loaded(context, path@),
    {
        match self.guest(context) {
            Some(registry) => registry.module(path),
            None => None,
        }
    }

    /// Returns the route of a specifier that leads to a host module in a context.
    pub fn host_route(&self, context: ContextKey, name: &str) -> (r: Option<String>)
        ensures
            text_of(r) == self@.host_route_of(context, name@),
    {
        match self.guest(context) {
            Some(registry) => registry.host_route(name),
            None => None,
        }
    }

    /// Returns the host module of a route in a context.
    pub fn host_module(&self, context: ContextKey, path: &str) -> (r: Option<Arc<H>>)
        ensures
            match r {
                Some(module) => self@.host_module_of(context, path@) == Some(*module),
                None => self@.host_module_of(context, path@) is None,
            },
    {
        match self.guest(context) {
            Some(registry) => registry.host_module(path),
            None => None,
        }
    }

    /// Stages exports under a route for the guest of a context. Without such a guest they are
    /// dropped.
    pub fn stage(&mut self, context: ContextKey, path: String, namespace: N)
        ensures
            final(self)@ == old(self)@.with_staged(context, path@, namespace),
    {
        broadcast use vstd::std_specs::hash::group_hash_axioms;

        match self.guest_id(context) {
            Some(guest) => match self.guests.remove(&guest) {
                Some(mut registry) => {
                    registry.stage(path, namespace);
                    let ghost view = registry@;
                    self.guests.insert(guest, registry);
                    assert(guest_values(self.guests@) =~= guest_values(old(self).guests@).insert(
                        guest,
                        view,
                    ));
                    assert(self@ =~= old(self)@.with_staged(context, path@, namespace));
                }
                None => {}
            },
            None => {}
        }
    }

    /// Takes what is staged under a route for the guest of a context.
    pub fn take_staged(&mut self, context: ContextKey, path: &str) -> (r: Option<N>)
        ensures
            r == old(self)@.staged_at(context, path@),
            final(self)@ == old(self)@.without_staged(context, path@),
    {
        broadcast use vstd::std_specs::hash::group_hash_axioms;

        match self.guest_id(context) {
            Some(guest) => match self.guests.remove(&guest) {
                Some(mut registry) => {
                    let taken = registry.take_staged(path);
                    let ghost view = registry@;
                    self.guests.insert(guest, registry);
                    assert(guest_values(self.guests@) =~= guest_values(old(self).guests@).insert(
                        guest,
                        view,
                    ));
                    assert(self@ =~= old(self)@.without_staged(context, path@));
                    taken
                }
                None => None,
            },
            None => None,
        }
    }

    /// Removes a guest. Removing one that is not there changes nothing.
    pub fn unregister(&mut self, guest: GuestId)
        ensures
            final(self)@ == old(self)@.without_guest(guest),
    {
        broadcast use vstd::std_specs::hash::group_hash_axioms;

        match self.guests.remove(&guest.0) {
            Some(registry) => {
                assert(guest_values(self.guests@) =~= guest_values(old(self).guests@).remove(
                    guest.0,
                ));
                let context = registry.context();
                let mapped = match self.contexts.get(&context) {
                    Some(owner) => *owner == guest.0,
                    None => false,
                };
                if mapped {
                    self.contexts.remove(&context);
                }
                assert(self@ =~= old(self)@.without_guest(guest));
            }
            None => {
                assert(self.guests@ =~= old(self).guests@);
            }
        }
    }
}

/// The registry of a runtime: the bindings that every guest receives, and the guests.
pub struct ModuleRegistry<H, D, I, N> {
    bindings: Vec<LibraryBinding<H, D, I>>,
    state: RegistryState<H, D, I, N>,
}

/// What the registry of a runtime stands for.
#[verifier::ext_equal]
pub struct RuntimeView<H, D, I, N> {
    pub bindings: Seq<BindingView<H, D, I>>,
    pub state: StateView<H, D, I, N>,
}

impl<H, D, I, N> View for ModuleRegistry<H, D, I, N> {
    type V = RuntimeView<H, D, I, N>;

    closed spec fn view(&self) -> RuntimeView<H, D, I, N> {
        RuntimeView { bindings: binding_views(self.bindings@), state: self.state@ }
    }
}

impl<H: HostModule, D, I, N> ModuleRegistry<H, D, I, N> {
    /// Creates the registry of a runtime without guests.
    pub fn new(bindings: Vec<LibraryBinding<H, D, I>>) -> (r: Self)
        ensures
            r@ == (RuntimeView {
                bindings: binding_views(bindings@),
                state: StateView::<H, D, I, N>::empty(),
            }),
    {
        ModuleRegistry { bindings, state: RegistryState::default() }
    }

    /// Registers a guest with the bindings of the runtime and, behind them, its own.
    pub fn register_guest(
        &mut self,
        context: ContextKey,
        bindings: Vec<LibraryBinding<H, D, I>>,
    ) -> (r: Result<GuestRegistration<I>, Error>)
        ensures
            old(self)@.state.next_guest < u64::MAX ==> (r matches Ok(registration)
                && registration@ == (
                GuestId(old(self)@.state.next_guest),
                initializers_of(old(self)@.bindings + binding_views(bindings@)),
            ) && final(self)@ == (RuntimeView {
                state: old(self)@.state.with_guest(
                    context,
                    old(self)@.bindings + binding_views(bindings@),
                ),
                ..old(self)@
            })),
            old(self)@.state.next_guest == u64::MAX ==> (r matches Err(error)
                && error is Unexpected && error.details() == Some(
                ("guest identifier space exhausted"@, None::<Seq<char>>),
            ) && final(self)@ == old(self)@),
    {
        let ghost own = bindings@;
        let mut bindings = bindings;
        let mut all: Vec<LibraryBinding<H, D, I>> = Vec::new();
        let mut i: usize = 0;
        while i < self.bindings.len()
            invariant
                i <= self.bindings@.len(),
                *self == *old(self),
                binding_views(all@) == binding_views(self.bindings@).take(i as int),
            decreases self.bindings@.len() - i,
        {
            let ghost before = all@;
            let binding = self.bindings[i].clone();
            all.push(binding);
            assert(binding_views(all@) =~= binding_views(before).push(binding@));
            assert(binding_views(self.bindings@).take(i + 1) =~= binding_views(
                self.bindings@,
            ).take(i as int).push(binding_views(self.bindings@)[i as int]));
            i += 1;
        }
        assert(binding_views(self.bindings@).take(i as int) =~= binding_views(self.bindings@));
        let ghost shared = all@;
        all.append(&mut bindings);
        assert(binding_views(all@) =~= binding_views(shared) + binding_views(own));
        self.state.register(context, &all)
    }

    /// Returns the route of a specifier that leads to a host module in a context.
    pub fn host_route(&self, context: ContextKey, name: &str) -> (r: Result<String, Error>)
        ensures
            match self@.state.host_route_of(context, name@) {
                Some(path) => r matches Ok(text) && text@ == path,
                None => r matches Err(error) && error is Unexpected && error.details() == Some(
                    ("host module `"@ + name@ + "` is not registered"@, None::<Seq<char>>),
                ),
            },
    {
        match self.state.host_route(context, name) {
            Some(path) => Ok(path),
            None => {
                let start = joined("host module `", name);
                let message = joined(start.as_str(), "` is not registered");
                Err(Error::unexpected(message.as_str()))
            }
        }
    }

    /// Resolves a specifier that a module of a guest imports. Only specifiers that the guest has a
    /// binding for can be resolved; any other is the engine's resolving error.
    pub fn resolve(&self, context: ContextKey, base: &str, name: &str) -> (r: Result<
        String,
        rquickjs::Error,
    >)
        ensures
            match self@.state.resolved(context, name@) {
                Some(path) => r matches Ok(text) && text@ == path,
                None => r == Err::<String, rquickjs::Error>(unresolved(base@, name@)),
            },
    {
        match self.state.resolve(context, name) {
            Some(path) => Ok(path),
            None => Err(resolving_error(base, name)),
        }
    }

    /// Finds the module to load for a route. Only the routes of the guest itself lead to a module;
    /// any other is the engine's loading error.
    pub fn load(&self, context: ContextKey, path: &str) -> (r: Result<
        ModuleRegistration<H, D, I>,
        rquickjs::Error,
    >)
        ensures
            match self@.state.loaded(context, path@) {
                Some(module) => r matches Ok(registration) && registration@ == module,
                None => r matches Err(error) && error == unloaded(path@),
            },
    {
        match self.state.module(context, path) {
            Some(module) => Ok(module),
            None => Err(loading_error(path)),
        }
    }

    /// Returns the host module of a route in a context.
    pub fn host_module(&self, context: ContextKey, path: &str) -> (r: Option<Arc<H>>)
        ensures
            match r {
                Some(module) => self@.state.host_module_of(context, path@) == Some(*module),
                None => self@.state.host_module_of(context, path@) is None,
            },
    {
        self.state.host_module(context, path)
    }

    /// Stages exports under a route for the guest of a context.
    pub fn stage(&mut self, context: ContextKey, path: String, namespace: N)
        ensures
            final(self)@ == (RuntimeView {
                state: old(self)@.state.with_staged(context, path@, namespace),
                ..old(self)@
            }),
    {
        self.state.stage(context, path, namespace);
    }

    /// Takes what is staged under a route for the guest of a context.
    pub fn take_staged(&mut self, context: ContextKey, path: &str) -> (r: Option<N>)
        ensures
            r == old(self)@.state.staged_at(context, path@),
            final(self)@ == (RuntimeView {
                state: old(self)@.state.without_staged(context, path@),
                ..old(self)@
            }),
    {
        self.state.take_staged(context, path)
    }

    /// Removes a guest.
    pub fn unregister_guest(&mut self, guest: GuestId)
        ensures
            final(self)@ == (RuntimeView {
                state: old(self)@.state.without_guest(guest),
                ..old(self)@
            }),
    {
        self.state.unregister(guest);
    }
}

/// The key of a context is its address.
proof fn law_contexts_are_told_apart_by_their_address(
    ctx: rquickjs::Ctx<'_>,
    key: ContextKey,
)
    requires
        call_ensures(ContextKey::new, (&ctx,), key),
    ensures
        call_ensures(context_address, (&ctx,), key.0),
{
}

} // verus!
