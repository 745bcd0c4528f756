//! A registry of host modules by name: some for every guest, some for one guest only.

use std::collections::HashMap;
use std::sync::Arc;
use vstd::prelude::*;

use crate::errors::Error;
use crate::host::module::HostModule;
use crate::names::NameMap;
use crate::registry::guest::lookup;
use crate::registry::state::{ContextKey, GuestId};

verus! {

/// What the registry of one guest stands for.
#[verifier::ext_equal]
pub struct HostGuestView<H, N> {
    pub context: usize,
    pub scoped: Map<Seq<char>, H>,
    pub staged: Map<Seq<char>, N>,
}

/// What the registry stands for.
#[verifier::ext_equal]
pub struct HostStateView<H, N> {
    pub next_guest: u64,
    pub contexts: Map<usize, u64>,
    pub global: Map<Seq<char>, H>,
    pub guests: Map<u64, HostGuestView<H, N>>,
}

impl<H, N> HostStateView<H, N> {
    /// The registry without modules and guests.
    pub open spec fn empty() -> Self {
        HostStateView {
            next_guest: 0,
            contexts: Map::empty(),
            global: Map::empty(),
            guests: Map::empty(),
        }
    }

    /// The module that a guest sees under a name: its own, or else that of every guest.
    pub open spec fn found(self, guest: GuestId, name: Seq<char>) -> Option<H> {
        if !self.guests.dom().contains(guest.0) {
            None
        } else {
            match lookup(self.guests[guest.0].scoped, name) {
                Some(module) => Some(module),
                None => lookup(self.global, name),
            }
        }
    }

    /// What is staged under a name for a guest.
    pub open spec fn staged_at(self, guest: GuestId, name: Seq<char>) -> Option<N> {
        if self.guests.dom().contains(guest.0) {
            lookup(self.guests[guest.0].staged, name)
        } else {
            None
        }
    }

    /// The registry with one more guest, to which the context belongs from then on.
    pub open spec fn with_guest(self, context: ContextKey) -> Self {
        HostStateView {
            next_guest: (self.next_guest + 1) as u64,
            contexts: self.contexts.insert(context.0, self.next_guest),
            guests: self.guests.insert(
                self.next_guest,
                HostGuestView { context: context.0, scoped: Map::empty(), staged: Map::empty() },
            ),
            ..self
        }
    }

    /// The registry with a module for every guest.
    pub open spec fn with_global(self, name: Seq<char>, module: H) -> Self {
        HostStateView { global: self.global.insert(name, module), ..self }
    }

    /// The registry with a module for one guest, if it is there.
    pub open spec fn with_scoped(self, guest: GuestId, name: Seq<char>, module: H) -> Self {
        if self.guests.dom().contains(guest.0) {
            let registry = self.guests[guest.0];
            HostStateView {
                guests: self.guests.insert(
                    guest.0,
                    HostGuestView { scoped: registry.scoped.insert(name, module), ..registry },
                ),
                ..self
            }
        } else {
            self
        }
    }

    /// The registry with exports staged for a guest, if it is there.
    pub open spec fn with_staged(self, guest: GuestId, name: Seq<char>, namespace: N) -> Self {
        if self.guests.dom().contains(guest.0) {
            let registry = self.guests[guest.0];
            HostStateView {
                guests: self.guests.insert(
                    guest.0,
                    HostGuestView { staged: registry.staged.insert(name, namespace), ..registry },
                ),
                ..self
            }
        } else {
            self
        }
    }

    /// The registry without what is staged under a name for a guest.
    pub open spec fn without_staged(self, guest: GuestId, name: Seq<char>) -> Self {
        if self.guests.dom().contains(guest.0) {
            let registry = self.guests[guest.0];
            HostStateView {
                guests: self.guests.insert(
                    guest.0,
                    HostGuestView { staged: registry.staged.remove(name), ..registry },
                ),
                ..self
            }
        } else {
            self
        }
    }

    /// The registry without a guest. Its context belongs to no guest from then on, unless it
    /// belongs to another one by now.
    pub open spec fn without_guest(self, guest: GuestId) -> Self {
        if self.guests.dom().contains(guest.0) {
            let context = self.guests[guest.0].context;
            HostStateView {
                guests: self.guests.remove(guest.0),
                contexts: if lookup(self.contexts, context) == Some(guest.0) {
                    self.contexts.remove(context)
                } else {
                    self.contexts
                },
                ..self
            }
        } else {
            self
        }
    }

    /// Whether every guest is older than the next one, and every context that belongs to a guest is
    /// that guest's own.
    pub open spec fn well_formed(self) -> bool {
        &&& forall|guest: u64| #[trigger] self.guests.dom().contains(guest) ==> guest
            < self.next_guest
        &&& forall|context: usize| #[trigger]
            self.contexts.dom().contains(context) ==> self.guests.dom().contains(
                self.contexts[context],
            ) && self.guests[self.contexts[context]].context == context
    }
}

/// The registry of one guest.
pub struct HostGuest<H, N> {
    context: usize,
    scoped: NameMap<Arc<H>>,
    staged: NameMap<N>,
}

spec fn shared_values<H>(modules: Map<Seq<char>, Arc<H>>) -> Map<Seq<char>, H> {
    modules.map_values(|module: Arc<H>| *module)
}

impl<H, N> View for HostGuest<H, N> {
    type V = HostGuestView<H, N>;

    closed spec fn view(&self) -> HostGuestView<H, N> {
        HostGuestView {
            context: self.context,
            scoped: shared_values(self.scoped@),
            staged: self.staged@,
        }
    }
}

/// The host modules of a runtime and its guests.
pub struct HostRegistry<H, N> {
    next_guest: u64,
    contexts: HashMap<usize, u64>,
    global: NameMap<Arc<H>>,
    guests: HashMap<u64, HostGuest<H, N>>,
}

spec fn guest_values<H, N>(guests: Map<u64, HostGuest<H, N>>) -> Map<u64, HostGuestView<H, N>> {
    guests.map_values(|guest: HostGuest<H, N>| guest@)
}

impl<H, N> View for HostRegistry<H, N> {
    type V = HostStateView<H, N>;

    closed spec fn view(&self) -> HostStateView<H, N> {
        HostStateView {
            next_guest: self.next_guest,
            contexts: self.contexts@,
            global: shared_values(self.global@),
            guests: guest_values(self.guests@),
        }
    }
}

impl<H, N> Default for HostRegistry<H, N> {
    fn default() -> (r: Self)
        ensures
            r@ == HostStateView::<H, N>::empty(),
    {
        let r = HostRegistry {
            next_guest: 0,
            contexts: HashMap::new(),
            global: NameMap::new(),
            guests: HashMap::new(),
        };
        assert(r@ =~= HostStateView::<H, N>::empty());
        r
    }
}

/// The module behind an optional shared module.
pub open spec fn shared<H>(module: Option<Arc<H>>) -> Option<H> {
    match module {
        Some(module) => Some(*module),
        None => None,
    }
}

impl<H: HostModule, N> HostRegistry<H, N> {
    /// Registers a guest under a context. Guest identifiers are never used twice, and when they
    /// have run out no guest is registered.
    pub fn register_context(&mut self, context: ContextKey) -> (r: Result<GuestId, Error>)
        ensures
            old(self)@.next_guest < u64::MAX ==> (r == Ok::<GuestId, Error>(
                GuestId(old(self)@.next_guest),
            ) && final(self)@ == old(self)@.with_guest(context)),
            old(self)@.next_guest == u64::MAX ==> (r matches Err(error) && error is Unexpected
                && error.details() == Some(
                ("guest identifier space exhausted"@, None::<Seq<char>>),
            ) && final(self)@ == old(self)@),
    {
        broadcast use vstd::std_specs::hash::group_hash_axioms;

        let guest: u64 = self.next_guest;
        match guest.checked_add(1) {
            Some(next) => {
                self.next_guest = next;
            }
            None => {
                return Err(Error::unexpected("guest identifier space exhausted"));
            }
        }
        let registry = HostGuest {
            context: context.0,
            scoped: NameMap::new(),
            staged: NameMap::new(),
        };
        let ghost view = registry@;
        self.contexts.insert(context.0, guest);
        self.guests.insert(guest, registry);
        assert(view.scoped =~= Map::<Seq<char>, H>::empty());
        assert(guest_values(self.guests@) =~= guest_values(old(self).guests@).insert(guest, view));
        assert(self@ =~= old(self)@.with_guest(context));
        Ok(GuestId(guest))
    }

    /// Returns the guest that a context belongs to.
    pub fn resolve_context(&self, context: ContextKey) -> (r: Option<GuestId>)
        ensures
            r == (match lookup(self@.contexts, context.0) {
                Some(guest) => Some(GuestId(guest)),
                None => None::<GuestId>,
            }),
    {
        broadcast use vstd::std_specs::hash::group_hash_axioms;

        match self.contexts.get(&context.0) {
            Some(guest) => Some(GuestId(*guest)),
            None => None,
        }
    }

    /// Registers a guest under an engine context.
    pub fn register_guest(&mut self, ctx: &rquickjs::Ctx<'_>) -> (r: Result<GuestId, Error>)
        ensures
            old(self)@.next_guest < u64::MAX ==> r == Ok::<GuestId, Error>(
                GuestId(old(self)@.next_guest),
            ) && exists|context: ContextKey| #[trigger]
                context.is_key_of(*ctx) && final(self)@ == old(self)@.with_guest(context),
            old(self)@.next_guest == u64::MAX ==> (r matches Err(error) && error is Unexpected
                && error.details() == Some(
                ("guest identifier space exhausted"@, None::<Seq<char>>),
            ) && final(self)@ == old(self)@),
    {
        let context = ContextKey::new(ctx);
        self.register_context(context)
    }

    /// Returns the guest that an engine context belongs to.
    pub fn guest_id(&self, ctx: &rquickjs::Ctx<'_>) -> (r: Option<GuestId>)
        ensures
            exists|context: ContextKey| #[trigger]
                context.is_key_of(*ctx) && r == (match lookup(self@.contexts, context.0) {
                    Some(guest) => Some(GuestId(guest)),
                    None => None::<GuestId>,
                }),
    {
        let context = ContextKey::new(ctx);
        self.resolve_context(context)
    }

    /// Registers a module for every guest and returns the one that it replaces.
    pub fn register_global(&mut self, module: Arc<H>) -> (r: Option<Arc<H>>)
        ensures
            shared(r) == lookup(old(self)@.global, module.specifier()),
            final(self)@ == old(self)@.with_global(module.specifier(), *module),
    {
        let name = module.name().to_owned();
        let replaced = self.global.insert(name, module);
        assert(shared_values(self.global@) =~= shared_values(old(self).global@).insert(
            name@,
            *module,
        ));
        replaced
    }

    /// Registers a module for one guest and returns the one that it replaces. Without the guest the
    /// module itself comes back.
    pub fn register_scoped(&mut self, guest: GuestId, module: Arc<H>) -> (r: Option<Arc<H>>)
        ensures
            shared(r) == (if old(self)@.guests.dom().contains(guest.0) {
                lookup(old(self)@.guests[guest.0].scoped, module.specifier())
            } else {
                Some(*module)
            }),
            final(self)@ == old(self)@.with_scoped(guest, module.specifier(), *module),
    {
        broadcast use vstd::std_specs::hash::group_hash_axioms;

        match self.guests.remove(&guest.0) {
            Some(mut registry) => {
                let ghost before = registry@;
                let name = module.name().to_owned();
                let replaced = registry.scoped.insert(name, module);
                let ghost view = registry@;
                assert(view.scoped =~= before.scoped.insert(name@, *module));
                self.guests.insert(guest.0, registry);
                assert(guest_values(self.guests@) =~= guest_values(old(self).guests@).insert(
                    guest.0,
                    view,
                ));
                assert(self@ =~= old(self)@.with_scoped(guest, module.specifier(), *module));
                replaced
            }
            None => {
                assert(self.guests@ =~= old(self).guests@);
                Some(module)
            }
        }
    }

    /// Returns whether a guest sees a module under a name.
    pub fn is_known(&self, guest: GuestId, name: &str) -> (r: bool)
        ensures
            r == (self@.found(guest, name@) is Some),
    {
        broadcast use vstd::std_specs::hash::group_hash_axioms;

        match self.guests.get(&guest.0) {
            Some(registry) => registry.scoped.contains(name) || self.global.contains(name),
            None => false,
        }
    }

    /// Returns the module that a guest sees under a name: its own, or else that of every guest.
    pub fn lookup(&self, guest: GuestId, name: &str) -> (r: Option<Arc<H>>)
        ensures
            shared(r) == self@.found(guest, name@),
    {
        broadcast use vstd::std_specs::hash::group_hash_axioms;

        match self.guests.get(&guest.0) {
            Some(registry) => match registry.scoped.get(name) {
                Some(module) => Some(module.clone()),
                None => match self.global.get(name) {
                    Some(module) => Some(module.clone()),
                    None => None,
                },
            },
            None => None,
        }
    }

    /// Stages exports for a guest and returns those that they replace. Without the guest the
    /// exports themselves come back.
    pub fn stage(&mut self, guest: GuestId, name: String, namespace: N) -> (r: Option<N>)
        ensures
            r == (if old(self)@.guests.dom().contains(guest.0) {
                old(self)@.staged_at(guest, name@)
            } else {
                Some(namespace)
            }),
            final(self)@ == old(self)@.with_staged(guest, name@, namespace),
    {
        broadcast use vstd::std_specs::hash::group_hash_axioms;

        match self.guests.remove(&guest.0) {
            Some(mut registry) => {
                let replaced = registry.staged.insert(name, namespace);
                let ghost view = registry@;
                self.guests.insert(guest.0, registry);
                assert(guest_values(self.guests@) =~= guest_values(old(self).guests@).insert(
                    guest.0,
                    view,
                ));
                assert(self@ =~= old(self)@.with_staged(guest, name@, namespace));
                replaced
            }
            None => {
                assert(self.guests@ =~= old(self).guests@);
                Some(namespace)
            }
        }
    }

    /// Takes what is staged under a name for a guest.
    pub fn take_staged(&mut self, guest: GuestId, name: &str) -> (r: Option<N>)
        ensures
            r == old(self)@.staged_at(guest, name@),
            final(self)@ == old(self)@.without_staged(guest, name@),
    {
        broadcast use vstd::std_specs::hash::group_hash_axioms;

        match self.guests.remove(&guest.0) {
            Some(mut registry) => {
                let taken = registry.staged.remove(name);
                let ghost view = registry@;
                self.guests.insert(guest.0, registry);
                assert(guest_values(self.guests@) =~= guest_values(old(self).guests@).insert(
                    guest.0,
                    view,
                ));
                assert(self@ =~= old(self)@.without_staged(guest, name@));
                taken
            }
            None => {
                assert(self.guests@ =~= old(self).guests@);
                None
            }
        }
    }

    /// Removes a guest with its modules and what is staged for it, and returns whether it was
    /// there.
    pub fn unregister_guest(&mut self, guest: GuestId) -> (r: bool)
        ensures
            r == old(self)@.guests.dom().contains(guest.0),
            final(self)@ == old(self)@.without_guest(guest),
    {
        broadcast use vstd::std_specs::hash::group_hash_axioms;

        match self.guests.remove(&guest.0) {
            Some(registry) => {
                assert(guest_values(self.guests@) =~= guest_values(old(self).guests@).remove(
                    guest.0,
                ));
                let context = registry.context;
                let mapped = match self.contexts.get(&context) {
                    Some(owner) => *owner == guest.0,
                    None => false,
                };
                if mapped {
                    self.contexts.remove(&context);
                }
                assert(self@ =~= old(self)@.without_guest(guest));
                true
            }
            None => {
                assert(self.guests@ =~= old(self).guests@);
                false
            }
        }
    }
}

/// Every operation keeps the registry well formed.
pub proof fn law_host_registry_stays_well_formed<H, N>(
    state: HostStateView<H, N>,
    context: ContextKey,
    guest: GuestId,
    name: Seq<char>,
    module: H,
    namespace: N,
)
    requires
        state.well_formed(),
    ensures
        HostStateView::<H, N>::empty().well_formed(),
        state.next_guest < u64::MAX ==> state.with_guest(context).well_formed(),
        state.with_global(name, module).well_formed(),
        state.with_scoped(guest, name, module).well_formed(),
        state.with_staged(guest, name, namespace).well_formed(),
        state.without_staged(guest, name).well_formed(),
        state.without_guest(guest).well_formed(),
{
    let added = state.with_guest(context);
    assert forall|c: usize| #[trigger] added.contexts.dom().contains(c) implies added.guests.dom().contains(
        added.contexts[c],
    ) && added.guests[added.contexts[c]].context == c by {
        if c != context.0 {
            assert(state.contexts.dom().contains(c));
        }
    }
    let scoped = state.with_scoped(guest, name, module);
    let staged = state.with_staged(guest, name, namespace);
    let taken = state.without_staged(guest, name);
    let removed = state.without_guest(guest);
    assert forall|c: usize| #[trigger] scoped.contexts.dom().contains(c) implies scoped.guests.dom().contains(
        scoped.contexts[c],
    ) && scoped.guests[scoped.contexts[c]].context == c by {
        assert(state.contexts.dom().contains(c));
    }
    assert forall|c: usize| #[trigger] staged.contexts.dom().contains(c) implies staged.guests.dom().contains(
        staged.contexts[c],
    ) && staged.guests[staged.contexts[c]].context == c by {
        assert(state.contexts.dom().contains(c));
    }
    assert forall|c: usize| #[trigger] taken.contexts.dom().contains(c) implies taken.guests.dom().contains(
        taken.contexts[c],
    ) && taken.guests[taken.contexts[c]].context == c by {
        assert(state.contexts.dom().contains(c));
    }
    assert forall|c: usize| #[trigger] removed.contexts.dom().contains(c) implies removed.guests.dom().contains(
        removed.contexts[c],
    ) && removed.guests[removed.contexts[c]].context == c by {
        assert(state.contexts.dom().contains(c));
    }
}

/// A module of a guest hides the module of the same name for every guest, from that guest only.
pub proof fn law_scoped_modules_precede_global_modules<H, N>(
    state: HostStateView<H, N>,
    guest: GuestId,
    other: GuestId,
    name: Seq<char>,
    own: H,
    global: H,
)
    requires
        state.guests.dom().contains(guest.0),
        other != guest,
    ensures
        state.with_global(name, global).with_scoped(guest, name, own).found(guest, name) == Some(
            own,
        ),
        state.with_scoped(guest, name, own).with_global(name, global).found(guest, name) == Some(
            own,
        ),
        state.with_scoped(guest, name, own).found(other, name) == state.found(other, name),
{
}

/// Removing a guest twice is removing it once. The modules of every guest and those of the other
/// guests stay, and the guest itself sees nothing any more.
pub proof fn law_host_cleanup_is_scoped<H, N>(
    state: HostStateView<H, N>,
    guest: GuestId,
    other: GuestId,
    name: Seq<char>,
)
    requires
        other != guest,
    ensures
        state.without_guest(guest).without_guest(guest) == state.without_guest(guest),
        state.without_guest(guest).global == state.global,
        state.without_guest(guest).found(guest, name) is None,
        state.without_guest(guest).staged_at(guest, name) is None,
        state.without_guest(guest).found(other, name) == state.found(other, name),
        state.without_guest(guest).staged_at(other, name) == state.staged_at(other, name),
{
}

/// What is staged for a guest is seen by no other guest, and can be taken once.
pub proof fn law_host_staging_is_isolated<H, N>(
    state: HostStateView<H, N>,
    guest: GuestId,
    other: GuestId,
    name: Seq<char>,
    namespace: N,
)
    requires
        state.guests.dom().contains(guest.0),
        other != guest,
    ensures
        state.with_staged(guest, name, namespace).staged_at(guest, name) == Some(namespace),
        state.with_staged(guest, name, namespace).without_staged(guest, name).staged_at(guest, name)
            is None,
        state.with_staged(guest, name, namespace).staged_at(other, name) == state.staged_at(
            other,
            name,
        ),
{
}

} // verus!
