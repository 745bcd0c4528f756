//! Registries of host modules.

use std::sync::Arc;
use vstd::prelude::*;

use crate::errors::Error;
use crate::host::module::HostModule;
use crate::host::registry::HostRegistry;
use crate::laws::errors::says_unexpected;
use crate::registry::state::{ContextKey, GuestId};

verus! {

/// A guest sees its own module under a name, or else that of every guest; one that is not there
/// sees nothing. A name is known exactly where something is seen under it.
pub proof fn law_guests_see_their_own_module_first<H: HostModule, N>(
    registry: &HostRegistry<H, N>,
    guest: GuestId,
    name: &str,
    found: Option<Arc<H>>,
    known: bool,
)
    requires
        call_ensures(HostRegistry::<H, N>::lookup, (registry, guest, name), found),
        call_ensures(HostRegistry::<H, N>::is_known, (registry, guest, name), known),
    ensures
        known <==> found is Some,
        !registry@.guests.dom().contains(guest.0) ==> found is None,
        registry@.guests.dom().contains(guest.0)
            && registry@.guests[guest.0].scoped.dom().contains(name@) ==> (found matches Some(
            module,
        ) && *module == registry@.guests[guest.0].scoped[name@]),
        registry@.guests.dom().contains(guest.0)
            && !registry@.guests[guest.0].scoped.dom().contains(name@) ==> (found is Some
            <==> registry@.global.dom().contains(name@)) && (found matches Some(module) ==> *module
            == registry@.global[name@]),
{
}

/// A fresh registry has neither guests nor modules.
pub proof fn law_fresh_host_registry_is_empty<H: HostModule, N>(
    registry: HostRegistry<H, N>,
    context: ContextKey,
    found: Option<GuestId>,
)
    requires
        call_ensures(<HostRegistry<H, N> as Default>::default, (), registry),
        call_ensures(HostRegistry::<H, N>::resolve_context, (&registry, context), found),
    ensures
        found is None,
        registry@.guests.dom() =~= Set::empty(),
        registry@.global.dom() =~= Set::empty(),
        registry@.next_guest == 0,
{
}

/// A context gets a guest of its own, with an identity that is given once, and sees what every
/// guest sees. Other contexts and guests stay as they are.
pub proof fn law_contexts_get_guests_of_their_own<H: HostModule, N>(
    registry: &mut HostRegistry<H, N>,
    context: ContextKey,
    outcome: Result<GuestId, Error>,
    after: Option<GuestId>,
    other: ContextKey,
    other_before: Option<GuestId>,
    other_after: Option<GuestId>,
    guest: u64,
)
    requires
        call_ensures(HostRegistry::<H, N>::register_context, (registry, context), outcome),
        call_ensures(HostRegistry::<H, N>::resolve_context, (&*final(registry), context), after),
        other != context,
        call_ensures(HostRegistry::<H, N>::resolve_context, (&*old(registry), other), other_before),
        call_ensures(HostRegistry::<H, N>::resolve_context, (&*final(registry), other),
            other_after),
    ensures
        outcome is Ok <==> old(registry)@.next_guest < u64::MAX,
        outcome matches Ok(id) ==> {
            &&& after == Some(id)
            &&& id.0 == old(registry)@.next_guest
            &&& final(registry)@.next_guest == id.0 + 1
            &&& final(registry)@.guests.dom().contains(id.0)
            &&& final(registry)@.guests[id.0].context == context.0
            &&& final(registry)@.guests[id.0].scoped.dom() =~= Set::empty()
            &&& final(registry)@.guests[id.0].staged.dom() =~= Set::empty()
            &&& guest != id.0 ==> (final(registry)@.guests.dom().contains(guest)
                <==> old(registry)@.guests.dom().contains(guest))
            &&& guest != id.0 && old(registry)@.guests.dom().contains(guest)
                ==> final(registry)@.guests[guest] == old(registry)@.guests[guest]
        },
        outcome matches Err(error) ==> says_unexpected(error, "guest identifier space exhausted"@)
            && final(registry)@ == old(registry)@,
        other_after == other_before,
        final(registry)@.global == old(registry)@.global,
{
}

/// A module for every guest is seen under its specifier by every guest that has none of its own
/// there, and nothing else changes. What it replaces is handed back.
pub proof fn law_global_modules_are_seen_by_all<H: HostModule, N>(
    registry: &mut HostRegistry<H, N>,
    module: Arc<H>,
    replaced: Option<Arc<H>>,
    guest: GuestId,
    name: &str,
    before: Option<Arc<H>>,
    after: Option<Arc<H>>,
)
    requires
        call_ensures(HostRegistry::<H, N>::register_global, (registry, module), replaced),
        call_ensures(HostRegistry::<H, N>::lookup, (&*old(registry), guest, name), before),
        call_ensures(HostRegistry::<H, N>::lookup, (&*final(registry), guest, name), after),
    ensures
        replaced is Some <==> old(registry)@.global.dom().contains(module.specifier()),
        replaced matches Some(given) ==> *given == old(registry)@.global[module.specifier()],
        final(registry)@.guests == old(registry)@.guests,
        final(registry)@.contexts == old(registry)@.contexts,
        final(registry)@.next_guest == old(registry)@.next_guest,
        name@ == module.specifier() && old(registry)@.guests.dom().contains(guest.0)
            && !old(registry)@.guests[guest.0].scoped.dom().contains(name@)
            ==> (after matches Some(given) && *given
            == *module),
        name@ != module.specifier() || !old(registry)@.guests.dom().contains(guest.0)
            || old(registry)@.guests[guest.0].scoped.dom().contains(name@)
            ==> (after is Some <==> before is Some) && (
        after matches Some(given) ==> *given == *before.unwrap()),
{
}

/// A module of one guest is seen under its specifier by that guest, whatever every guest sees
/// there, and changes nothing for other guests and names. A guest that is not there gets none, and
/// the module is handed back.
pub proof fn law_scoped_modules_are_seen_by_one<H: HostModule, N>(
    registry: &mut HostRegistry<H, N>,
    owner: GuestId,
    module: Arc<H>,
    replaced: Option<Arc<H>>,
    guest: GuestId,
    name: &str,
    before: Option<Arc<H>>,
    after: Option<Arc<H>>,
)
    requires
        call_ensures(HostRegistry::<H, N>::register_scoped, (registry, owner, module), replaced),
        call_ensures(HostRegistry::<H, N>::lookup, (&*old(registry), guest, name), before),
        call_ensures(HostRegistry::<H, N>::lookup, (&*final(registry), guest, name), after),
    ensures
        !old(registry)@.guests.dom().contains(owner.0) ==> final(registry)@ == old(registry)@ && (
        replaced matches Some(given) && *given == *module),
        old(registry)@.guests.dom().contains(owner.0) ==> (replaced is Some
            <==> old(registry)@.guests[owner.0].scoped.dom().contains(module.specifier())) && (
        replaced matches Some(given) ==> *given
            == old(registry)@.guests[owner.0].scoped[module.specifier()]),
        old(registry)@.guests.dom().contains(owner.0) && guest == owner && name@
            == module.specifier() ==> (after matches Some(given) && *given == *module),
        guest != owner || name@ != module.specifier() ==> (after is Some <==> before is Some) && (
        after matches Some(given) ==> *given == *before.unwrap()),
        final(registry)@.global == old(registry)@.global,
        final(registry)@.contexts == old(registry)@.contexts,
        final(registry)@.next_guest == old(registry)@.next_guest,
        final(registry)@.guests.dom() =~= old(registry)@.guests.dom(),
{
}

/// What is staged for a guest is handed out under its name, once, and to no other guest or name. A
/// guest that is not there gets nothing staged, and the exports are handed back.
pub proof fn law_host_exports_are_handed_out_once<H: HostModule, N>(
    registry: &mut HostRegistry<H, N>,
    owner: GuestId,
    name: String,
    namespace: N,
    replaced: Option<N>,
    text: &str,
    first: &mut HostRegistry<H, N>,
    taken: Option<N>,
    again: &mut HostRegistry<H, N>,
    second: Option<N>,
    guest: GuestId,
    other_name: &str,
    elsewhere: &mut HostRegistry<H, N>,
    found: Option<N>,
    untouched: &mut HostRegistry<H, N>,
    found_before: Option<N>,
)
    requires
        call_ensures(
            HostRegistry::<H, N>::stage,
            (registry, owner, name, namespace),
            replaced,
        ),
        text@ == name@,
        *old(first) == *final(registry),
        call_ensures(HostRegistry::<H, N>::take_staged, (first, owner, text), taken),
        *old(again) == *final(first),
        call_ensures(HostRegistry::<H, N>::take_staged, (again, owner, text), second),
        guest != owner || other_name@ != name@,
        *old(elsewhere) == *final(registry),
        call_ensures(HostRegistry::<H, N>::take_staged, (elsewhere, guest, other_name), found),
        *old(untouched) == *old(registry),
        call_ensures(
            HostRegistry::<H, N>::take_staged,
            (untouched, guest, other_name),
            found_before,
        ),
    ensures
        old(registry)@.guests.dom().contains(owner.0) ==> taken == Some(namespace)
            && second is None,
        old(registry)@.guests.dom().contains(owner.0) ==> (replaced is Some
            <==> old(registry)@.guests[owner.0].staged.dom().contains(name@)),
        !old(registry)@.guests.dom().contains(owner.0) ==> replaced == Some(namespace)
            && taken is None && final(registry)@ == old(registry)@,
        found == found_before,
        final(registry)@.global == old(registry)@.global,
        final(registry)@.contexts == old(registry)@.contexts,
        final(first)@.global == old(first)@.global,
        final(first)@.contexts == old(first)@.contexts,
{
}

/// A guest that is taken out sees nothing any more, its context belongs to no guest unless another
/// one took it over, and every other guest stays as it is.
pub proof fn law_removed_host_guest_leaves_nothing<H: HostModule, N>(
    registry: &mut HostRegistry<H, N>,
    guest: GuestId,
    was_there: bool,
    name: &str,
    found: Option<Arc<H>>,
    taking: &mut HostRegistry<H, N>,
    taken: Option<N>,
    context: ContextKey,
    before: Option<GuestId>,
    after: Option<GuestId>,
    other: u64,
)
    requires
        call_ensures(HostRegistry::<H, N>::unregister_guest, (registry, guest), was_there),
        call_ensures(HostRegistry::<H, N>::lookup, (&*final(registry), guest, name), found),
        *old(taking) == *final(registry),
        call_ensures(HostRegistry::<H, N>::take_staged, (taking, guest, name), taken),
        call_ensures(HostRegistry::<H, N>::resolve_context, (&*old(registry), context), before),
        call_ensures(HostRegistry::<H, N>::resolve_context, (&*final(registry), context), after),
    ensures
        was_there <==> old(registry)@.guests.dom().contains(guest.0),
        found is None,
        taken is None,
        before != Some(guest) ==> after == before,
        was_there && before == Some(guest) && old(registry)@.guests[guest.0].context == context.0
            ==> after is None,
        other != guest.0 ==> (final(registry)@.guests.dom().contains(other)
            <==> old(registry)@.guests.dom().contains(other)),
        other != guest.0 && old(registry)@.guests.dom().contains(other)
            ==> final(registry)@.guests[other] == old(registry)@.guests[other],
        final(registry)@.global == old(registry)@.global,
        final(registry)@.next_guest == old(registry)@.next_guest,
        !was_there ==> final(registry)@ == old(registry)@,
{
}

/// The guest of an engine context is registered and found under a key of that context.
pub proof fn law_engine_contexts_have_keys<'js, H: HostModule, N>(
    registry: &mut HostRegistry<H, N>,
    ctx: &rquickjs::Ctx<'js>,
    outcome: Result<GuestId, Error>,
    looked_up: &HostRegistry<H, N>,
    found: Option<GuestId>,
)
    requires
        call_ensures(HostRegistry::<H, N>::register_guest, (registry, ctx), outcome),
        call_ensures(HostRegistry::<H, N>::guest_id, (looked_up, ctx), found),
    ensures
        outcome is Ok <==> old(registry)@.next_guest < u64::MAX,
        outcome matches Ok(id) ==> id.0 == old(registry)@.next_guest && exists|context: ContextKey|
         #[trigger]
            context.is_key_of(*ctx) && forall|answer: Option<GuestId>| #[trigger]
                call_ensures(
                    HostRegistry::<H, N>::resolve_context,
                    (&*final(registry), context),
                    answer,
                ) ==> answer == Some(id),
        outcome is Err ==> final(registry)@ == old(registry)@,
        exists|context: ContextKey| #[trigger]
            context.is_key_of(*ctx) && forall|answer: Option<GuestId>| #[trigger]
                call_ensures(HostRegistry::<H, N>::resolve_context, (looked_up, context), answer)
                    ==> answer == found,
{
}

/// A module of one guest changes nothing else of that guest, and nothing of another.
pub proof fn law_scoped_modules_change_nothing_else<H: HostModule, N>(
    registry: &mut HostRegistry<H, N>,
    owner: GuestId,
    module: Arc<H>,
    replaced: Option<Arc<H>>,
    guest: u64,
    name: Seq<char>,
)
    requires
        call_ensures(HostRegistry::<H, N>::register_scoped, (registry, owner, module), replaced),
        old(registry)@.guests.dom().contains(guest),
    ensures
        final(registry)@.guests[guest].context == old(registry)@.guests[guest].context,
        final(registry)@.guests[guest].staged == old(registry)@.guests[guest].staged,
        guest != owner.0 ==> final(registry)@.guests[guest] == old(registry)@.guests[guest],
        name != module.specifier() ==> (final(registry)@.guests[guest].scoped.dom().contains(name)
            <==> old(registry)@.guests[guest].scoped.dom().contains(name)),
        name != module.specifier() && old(registry)@.guests[guest].scoped.dom().contains(name)
            ==> final(registry)@.guests[guest].scoped[name]
            == old(registry)@.guests[guest].scoped[name],
        final(registry)@.global == old(registry)@.global,
        final(registry)@.contexts == old(registry)@.contexts,
        final(registry)@.next_guest == old(registry)@.next_guest,
{
}

/// Staging exports and taking them change nothing under another name, nothing else of the guest,
/// and nothing of another. Staging hands back what was staged under the name before.
pub proof fn law_host_staging_changes_nothing_else<H: HostModule, N>(
    registry: &mut HostRegistry<H, N>,
    owner: GuestId,
    name: String,
    namespace: N,
    replaced: Option<N>,
    taking: &mut HostRegistry<H, N>,
    text: &str,
    taken: Option<N>,
    guest: u64,
    other: Seq<char>,
)
    requires
        call_ensures(
            HostRegistry::<H, N>::stage,
            (registry, owner, name, namespace),
            replaced,
        ),
        call_ensures(HostRegistry::<H, N>::take_staged, (taking, owner, text), taken),
        old(registry)@.guests.dom().contains(guest),
        old(taking)@.guests.dom().contains(guest),
    ensures
        final(registry)@.guests.dom() =~= old(registry)@.guests.dom(),
        final(registry)@.guests[guest].context == old(registry)@.guests[guest].context,
        final(registry)@.guests[guest].scoped == old(registry)@.guests[guest].scoped,
        guest != owner.0 ==> final(registry)@.guests[guest] == old(registry)@.guests[guest],
        other != name@ ==> (final(registry)@.guests[guest].staged.dom().contains(other)
            <==> old(registry)@.guests[guest].staged.dom().contains(other)),
        other != name@ && old(registry)@.guests[guest].staged.dom().contains(other)
            ==> final(registry)@.guests[guest].staged[other]
            == old(registry)@.guests[guest].staged[other],
        guest == owner.0 && old(registry)@.guests[guest].staged.dom().contains(name@) ==> replaced
            == Some(old(registry)@.guests[guest].staged[name@]),
        final(registry)@.global == old(registry)@.global,
        final(registry)@.contexts == old(registry)@.contexts,
        final(registry)@.next_guest == old(registry)@.next_guest,
        final(taking)@.guests.dom() =~= old(taking)@.guests.dom(),
        final(taking)@.guests[guest].context == old(taking)@.guests[guest].context,
        final(taking)@.guests[guest].scoped == old(taking)@.guests[guest].scoped,
        guest != owner.0 ==> final(taking)@.guests[guest] == old(taking)@.guests[guest],
        other != text@ ==> (final(taking)@.guests[guest].staged.dom().contains(other)
            <==> old(taking)@.guests[guest].staged.dom().contains(other)),
        other != text@ && old(taking)@.guests[guest].staged.dom().contains(other)
            ==> final(taking)@.guests[guest].staged[other]
            == old(taking)@.guests[guest].staged[other],
        guest == owner.0 ==> (taken is Some <==> old(taking)@.guests[guest].staged.dom().contains(
            text@,
        )),
        guest == owner.0 ==> (taken matches Some(own) ==> own
            == old(taking)@.guests[guest].staged[text@]),
        final(taking)@.global == old(taking)@.global,
        final(taking)@.contexts == old(taking)@.contexts,
        final(taking)@.next_guest == old(taking)@.next_guest,
{
}

} // verus!
