//! What holds of specifiers, routes, initializers and guests.

use vstd::prelude::*;

use crate::host::module::HostModule;
use crate::registry::bindings::BindingView;
use crate::registry::guest::lookup;
use crate::registry::routes::{
    all_contributed, contributed, fresh_guest, has_name, initializers_of, keep_last,
    law_routes_are_private, lemma_winner_provides, live, provides, route, routes_to,
    specifiers_of, winner,
};
use crate::registry::state::{ContextKey, GuestId, StateView};

verus! {

/// The last binding that provides a specifier is the module that the specifier leads to.
pub proof fn law_last_registration_wins<H: HostModule, D, I, N>(
    context: usize,
    guest: u64,
    bindings: Seq<BindingView<H, D, I>>,
    specifier: Seq<char>,
    i: int,
)
    requires
        0 <= i < bindings.len(),
        provides(bindings[i], specifier),
        forall|j: int| i < j < bindings.len() ==> !provides(#[trigger] bindings[j], specifier),
    ensures
        lookup(fresh_guest::<H, D, I, N>(context, guest, bindings).specifiers, specifier) == Some(
            route(guest, i),
        ),
        lookup(fresh_guest::<H, D, I, N>(context, guest, bindings).modules, route(guest, i))
            == Some(bindings[i]),
{
    lemma_winner_provides(bindings, specifier);
    assert(winner(bindings, specifier) == Some(i));
    assert(live(bindings, i));
    let path = route(guest, i);
    assert(routes_to(guest, bindings, path, i));
    let j = choose|j: int| #[trigger] routes_to(guest, bindings, path, j);
    law_routes_are_private(guest, i, guest, j);
}

/// A specifier that no binding provides leads nowhere.
pub proof fn law_unprovided_specifiers_lead_nowhere<H: HostModule, D, I, N>(
    context: usize,
    guest: u64,
    bindings: Seq<BindingView<H, D, I>>,
    specifier: Seq<char>,
)
    requires
        forall|j: int| 0 <= j < bindings.len() ==> !provides(#[trigger] bindings[j], specifier),
    ensures
        lookup(fresh_guest::<H, D, I, N>(context, guest, bindings).specifiers, specifier) is None,
{
    lemma_winner_provides(bindings, specifier);
}

/// All specifiers that lead to one binding share its route.
pub proof fn law_aliases_share_one_route<H: HostModule, D, I>(
    guest: u64,
    bindings: Seq<BindingView<H, D, I>>,
    i: int,
    specifier: Seq<char>,
    alias: Seq<char>,
)
    requires
        winner(bindings, specifier) == Some(i),
        winner(bindings, alias) == Some(i),
    ensures
        specifiers_of(guest, bindings)[specifier] == specifiers_of(guest, bindings)[alias],
{
}

/// One more binding takes over the specifiers that it provides and leaves all others as they are.
pub proof fn law_later_binding_replaces_only_its_own<H: HostModule, D, I>(
    guest: u64,
    bindings: Seq<BindingView<H, D, I>>,
    binding: BindingView<H, D, I>,
    specifier: Seq<char>,
)
    ensures
        lookup(specifiers_of(guest, bindings.push(binding)), specifier) == (if provides(
            binding,
            specifier,
        ) {
            Some(route(guest, bindings.len() as int))
        } else {
            lookup(specifiers_of(guest, bindings), specifier)
        }),
{
    assert(bindings.push(binding).drop_last() =~= bindings);
}

/// A binding of a guest wins over every binding of the runtime, and where the guest has none the
/// binding of the runtime stands.
pub proof fn law_guest_bindings_precede_runtime_bindings<H: HostModule, D, I>(
    shared: Seq<BindingView<H, D, I>>,
    own: Seq<BindingView<H, D, I>>,
    specifier: Seq<char>,
)
    ensures
        winner(shared + own, specifier) == (match winner(own, specifier) {
            Some(i) => Some(shared.len() + i),
            None => winner(shared, specifier),
        }),
    decreases own.len(),
{
    if own.len() == 0 {
        assert(shared + own =~= shared);
    } else {
        assert((shared + own).drop_last() =~= shared + own.drop_last());
        law_guest_bindings_precede_runtime_bindings(shared, own.drop_last(), specifier);
    }
}

/// A module that later bindings replace under every specifier adds no initializer.
pub proof fn law_replaced_module_runs_no_initializer<H: HostModule, D, I>(
    bindings: Seq<BindingView<H, D, I>>,
    i: int,
)
    requires
        0 <= i < bindings.len(),
        bindings[i] is Native,
        forall|specifier: Seq<char>| #[trigger]
            provides(bindings[i], specifier) ==> exists|j: int|
                i < j < bindings.len() && provides(#[trigger] bindings[j], specifier),
    ensures
        contributed(bindings, i) == Seq::<(Seq<char>, I)>::empty(),
{
    if live(bindings, i) {
        let specifier = choose|specifier: Seq<char>| #[trigger]
            winner(bindings, specifier) == Some(i);
        lemma_winner_provides(bindings, specifier);
        assert(provides(bindings[i], specifier));
        let j = choose|j: int| i < j < bindings.len() && provides(#[trigger] bindings[j], specifier);
        assert(!provides(bindings[j], specifier));
    }
}

proof fn lemma_kept_names<I>(initializers: Seq<(Seq<char>, I)>, name: Seq<char>)
    ensures
        has_name(keep_last(initializers), name) <==> has_name(initializers, name),
    decreases initializers.len(),
{
    if initializers.len() > 0 {
        let first = initializers.first();
        let rest = initializers.drop_first();
        lemma_kept_names(rest, name);
        if has_name(rest, name) {
            let i = choose|i: int| 0 <= i < rest.len() && (#[trigger] rest[i]).0 == name;
            assert(initializers[i + 1] == rest[i]);
        }
        if has_name(initializers, name) && !has_name(rest, name) {
            let i = choose|i: int|
                0 <= i < initializers.len() && (#[trigger] initializers[i]).0 == name;
            if i > 0 {
                assert(rest[i - 1] == initializers[i]);
            }
            assert(first.0 == name);
        }
        if !has_name(rest, first.0) {
            let kept = seq![first] + keep_last(rest);
            assert(keep_last(initializers) == kept);
            if has_name(keep_last(rest), name) {
                let i = choose|i: int|
                    0 <= i < keep_last(rest).len() && (#[trigger] keep_last(rest)[i]).0 == name;
                assert(kept[i + 1] == keep_last(rest)[i]);
            }
            if has_name(kept, name) && first.0 != name {
                let i = choose|i: int| 0 <= i < kept.len() && (#[trigger] kept[i]).0 == name;
                assert(keep_last(rest)[i - 1] == kept[i]);
            }
            if first.0 == name {
                assert(kept[0].0 == name);
                assert(initializers[0].0 == name);
            }
        }
    }
}

/// Every initializer name that is contributed runs exactly once: no name is dropped, and none
/// occurs twice.
pub proof fn law_each_initializer_name_runs_once<I>(initializers: Seq<(Seq<char>, I)>)
    ensures
        forall|name: Seq<char>| #[trigger]
            has_name(keep_last(initializers), name) <==> has_name(initializers, name),
        forall|i: int, j: int|
            #![trigger keep_last(initializers)[i], keep_last(initializers)[j]]
            0 <= i < keep_last(initializers).len() && 0 <= j < keep_last(initializers).len()
                && keep_last(initializers)[i].0 == keep_last(initializers)[j].0 ==> i == j,
    decreases initializers.len(),
{
    assert forall|name: Seq<char>| #[trigger]
        has_name(keep_last(initializers), name) <==> has_name(initializers, name) by {
        lemma_kept_names(initializers, name);
    }
    if initializers.len() > 0 {
        let first = initializers.first();
        let rest = initializers.drop_first();
        law_each_initializer_name_runs_once(rest);
        if !has_name(rest, first.0) {
            let kept = seq![first] + keep_last(rest);
            assert(!has_name(keep_last(rest), first.0));
            assert forall|i: int, j: int|
                #![trigger kept[i], kept[j]]
                0 <= i < kept.len() && 0 <= j < kept.len() && kept[i].0 == kept[j].0 implies i
                == j by {
                if i > 0 {
                    assert(kept[i] == keep_last(rest)[i - 1]);
                }
                if j > 0 {
                    assert(kept[j] == keep_last(rest)[j - 1]);
                }
            }
        }
    }
}

/// Of several initializers of one name the last one runs.
pub proof fn law_last_initializer_of_a_name_runs<I>(
    initializers: Seq<(Seq<char>, I)>,
    i: int,
)
    requires
        0 <= i < initializers.len(),
        forall|j: int|
            i < j < initializers.len() ==> (#[trigger] initializers[j]).0 != initializers[i].0,
    ensures
        keep_last(initializers).contains(initializers[i]),
    decreases initializers.len(),
{
    let first = initializers.first();
    let rest = initializers.drop_first();
    if i == 0 {
        if has_name(rest, first.0) {
            let j = choose|j: int| 0 <= j < rest.len() && (#[trigger] rest[j]).0 == first.0;
            assert(initializers[j + 1] == rest[j]);
        }
        assert(keep_last(initializers)[0] == first);
    } else {
        assert(rest[i - 1] == initializers[i]);
        assert forall|j: int| i - 1 < j < rest.len() implies (#[trigger] rest[j]).0 != rest[i
            - 1].0 by {
            assert(rest[j] == initializers[j + 1]);
        }
        law_last_initializer_of_a_name_runs(rest, i - 1);
        let at = keep_last(rest).index_of(rest[i - 1]);
        if !has_name(rest, first.0) {
            assert(keep_last(initializers)[at + 1] == keep_last(rest)[at]);
        }
    }
}

/// Initializers run in the order in which the last of each name was bound.
pub proof fn law_initializers_run_in_binding_order<I>(
    initializers: Seq<(Seq<char>, I)>,
    i: int,
    j: int,
)
    requires
        0 <= i < j < keep_last(initializers).len(),
    ensures
        exists|a: int, b: int|
            0 <= a < b < initializers.len() && #[trigger] initializers[a]
                == keep_last(initializers)[i] && #[trigger] initializers[b]
                == keep_last(initializers)[j],
    decreases initializers.len(),
{
    let first = initializers.first();
    let rest = initializers.drop_first();
    if has_name(rest, first.0) {
        law_initializers_run_in_binding_order(rest, i, j);
        let (a, b) = choose|a: int, b: int|
            0 <= a < b < rest.len() && #[trigger] rest[a] == keep_last(rest)[i]
                && #[trigger] rest[b] == keep_last(rest)[j];
        assert(initializers[a + 1] == rest[a]);
        assert(initializers[b + 1] == rest[b]);
    } else if i > 0 {
        law_initializers_run_in_binding_order(rest, i - 1, j - 1);
        let (a, b) = choose|a: int, b: int|
            0 <= a < b < rest.len() && #[trigger] rest[a] == keep_last(rest)[i - 1]
                && #[trigger] rest[b] == keep_last(rest)[j - 1];
        assert(initializers[a + 1] == rest[a]);
        assert(initializers[b + 1] == rest[b]);
    } else {
        lemma_kept_is_contributed(rest, j - 1);
        let b = choose|b: int| 0 <= b < rest.len() && #[trigger] rest[b] == keep_last(rest)[j - 1];
        assert(initializers[0] == first);
        assert(initializers[b + 1] == rest[b]);
    }
}

pub(crate) proof fn lemma_kept_is_contributed<I>(initializers: Seq<(Seq<char>, I)>, i: int)
    requires
        0 <= i < keep_last(initializers).len(),
    ensures
        exists|a: int|
            0 <= a < initializers.len() && #[trigger] initializers[a] == keep_last(initializers)[i],
    decreases initializers.len(),
{
    let first = initializers.first();
    let rest = initializers.drop_first();
    if has_name(rest, first.0) {
        lemma_kept_is_contributed(rest, i);
        let a = choose|a: int| 0 <= a < rest.len() && #[trigger] rest[a] == keep_last(rest)[i];
        assert(initializers[a + 1] == rest[a]);
    } else if i > 0 {
        lemma_kept_is_contributed(rest, i - 1);
        let a = choose|a: int| 0 <= a < rest.len() && #[trigger] rest[a] == keep_last(rest)[i - 1];
        assert(initializers[a + 1] == rest[a]);
    } else {
        assert(initializers[0] == first);
    }
}

proof fn lemma_contribution_is_collected<H: HostModule, D, I>(
    bindings: Seq<BindingView<H, D, I>>,
    count: nat,
    i: int,
    name: Seq<char>,
)
    requires
        0 <= i < count <= bindings.len(),
        has_name(contributed(bindings, i), name),
    ensures
        has_name(all_contributed(bindings, count), name),
    decreases count,
{
    let front = all_contributed(bindings, (count - 1) as nat);
    let last = contributed(bindings, count - 1);
    if i == count - 1 {
        let k = choose|k: int| 0 <= k < last.len() && (#[trigger] last[k]).0 == name;
        assert((front + last)[front.len() + k] == last[k]);
    } else {
        lemma_contribution_is_collected(bindings, (count - 1) as nat, i, name);
        let k = choose|k: int| 0 <= k < front.len() && (#[trigger] front[k]).0 == name;
        assert((front + last)[k] == front[k]);
    }
}

/// An initializer of its own runs whatever modules are replaced.
pub proof fn law_standalone_initializer_always_runs<H: HostModule, D, I>(
    bindings: Seq<BindingView<H, D, I>>,
    i: int,
)
    requires
        0 <= i < bindings.len(),
        bindings[i] is Initializer,
    ensures
        has_name(initializers_of(bindings), bindings[i]->Initializer_0.0),
{
    let name = bindings[i]->Initializer_0.0;
    assert(contributed(bindings, i)[0].0 == name);
    lemma_contribution_is_collected(bindings, bindings.len(), i, name);
    lemma_kept_names(all_contributed(bindings, bindings.len()), name);
}

/// The registry without guests is well formed, and every operation keeps it so.
pub proof fn law_registry_stays_well_formed<H: HostModule, D, I, N>(
    state: StateView<H, D, I, N>,
    context: ContextKey,
    bindings: Seq<BindingView<H, D, I>>,
    guest: GuestId,
    path: Seq<char>,
    namespace: N,
)
    requires
        state.well_formed(),
    ensures
        StateView::<H, D, I, N>::empty().well_formed(),
        state.next_guest < u64::MAX ==> state.with_guest(context, bindings).well_formed(),
        state.without_guest(guest).well_formed(),
        state.with_staged(context, path, namespace).well_formed(),
        state.without_staged(context, path).well_formed(),
{
    let added = state.with_guest(context, bindings);
    if state.next_guest < u64::MAX {
        assert forall|c: usize| #[trigger] added.contexts.dom().contains(c) implies added.guests.dom().contains(
            added.contexts[c],
        ) && added.guests[added.contexts[c]].context == c by {
            if c != context.0 {
                assert(state.contexts.dom().contains(c));
            }
        }
    }
    let removed = state.without_guest(guest);
    assert forall|c: usize| #[trigger] removed.contexts.dom().contains(c) implies removed.guests.dom().contains(
        removed.contexts[c],
    ) && removed.guests[removed.contexts[c]].context == c by {
        assert(state.contexts.dom().contains(c));
    }
    let staged = state.with_staged(context, path, namespace);
    assert forall|c: usize| #[trigger] staged.contexts.dom().contains(c) implies staged.guests.dom().contains(
        staged.contexts[c],
    ) && staged.guests[staged.contexts[c]].context == c by {
        assert(state.contexts.dom().contains(c));
    }
    let taken = state.without_staged(context, path);
    assert forall|c: usize| #[trigger] taken.contexts.dom().contains(c) implies taken.guests.dom().contains(
        taken.contexts[c],
    ) && taken.guests[taken.contexts[c]].context == c by {
        assert(state.contexts.dom().contains(c));
    }
}

/// A new guest has an identity that no guest has had before, and the guests that are there stay as
/// they are.
pub proof fn law_guest_identities_are_distinct<H: HostModule, D, I, N>(
    state: StateView<H, D, I, N>,
    context: ContextKey,
    bindings: Seq<BindingView<H, D, I>>,
    guest: u64,
)
    requires
        state.well_formed(),
        state.next_guest < u64::MAX,
        state.guests.dom().contains(guest),
    ensures
        guest != state.next_guest,
        state.with_guest(context, bindings).guests.dom().contains(guest),
        state.with_guest(context, bindings).guests[guest] == state.guests[guest],
        state.with_guest(context, bindings).next_guest > state.next_guest,
{
}

/// A context belongs to the guest that was registered under it last, and sees that guest's modules
/// only. Other contexts see what they saw before.
pub proof fn law_context_belongs_to_its_last_guest<H: HostModule, D, I, N>(
    state: StateView<H, D, I, N>,
    context: ContextKey,
    other: ContextKey,
    bindings: Seq<BindingView<H, D, I>>,
    name: Seq<char>,
)
    requires
        state.well_formed(),
        state.next_guest < u64::MAX,
        other != context,
    ensures
        state.with_guest(context, bindings).guest_of(context) == Some(state.next_guest),
        state.with_guest(context, bindings).resolved(context, name) == lookup(
            specifiers_of(state.next_guest, bindings),
            name,
        ),
        state.with_guest(context, bindings).registry_of(other) == state.registry_of(other),
{
}

/// Removing a guest twice is removing it once.
pub proof fn law_cleanup_is_idempotent<H, D, I, N>(state: StateView<H, D, I, N>, guest: GuestId)
    ensures
        state.without_guest(guest).without_guest(guest) == state.without_guest(guest),
        !state.without_guest(guest).guests.dom().contains(guest.0),
{
}

/// Removing a guest takes away the modules and the staged exports of its own context only: every
/// context of another guest sees what it saw before, and the context of the guest sees nothing.
pub proof fn law_cleanup_is_scoped<H, D, I, N>(
    state: StateView<H, D, I, N>,
    guest: GuestId,
    context: ContextKey,
)
    requires
        state.well_formed(),
    ensures
        state.guest_of(context) != Some(guest.0) ==> state.without_guest(guest).registry_of(context)
            == state.registry_of(context),
        state.guest_of(context) == Some(guest.0) ==> state.without_guest(guest).registry_of(
            context,
        ) is None,
{
    if state.contexts.dom().contains(context.0) {
        assert(state.guests[state.contexts[context.0]].context == context.0);
    }
}

/// Removing a guest whose context was taken over by a later guest leaves the later one in place.
pub proof fn law_stale_cleanup_keeps_the_later_guest<H: HostModule, D, I, N>(
    state: StateView<H, D, I, N>,
    context: ContextKey,
    first: Seq<BindingView<H, D, I>>,
    second: Seq<BindingView<H, D, I>>,
)
    requires
        state.well_formed(),
        state.next_guest + 1 < u64::MAX,
    ensures
        ({
            let older = GuestId(state.next_guest);
            let both = state.with_guest(context, first).with_guest(context, second);
            both.without_guest(older).registry_of(context) == both.registry_of(context)
                && both.guests.dom().contains(older.0)
        }),
{
}

/// What is staged for a guest can be taken once, under its route and by its guest only, and nothing
/// else is touched.
pub proof fn law_staged_exports_are_taken_once<H, D, I, N>(
    state: StateView<H, D, I, N>,
    context: ContextKey,
    other: ContextKey,
    path: Seq<char>,
    other_path: Seq<char>,
    namespace: N,
)
    requires
        state.guest_of(context) is Some,
    ensures
        state.with_staged(context, path, namespace).staged_at(context, path) == Some(namespace),
        state.with_staged(context, path, namespace).without_staged(context, path).staged_at(
            context,
            path,
        ) is None,
        other_path != path ==> state.with_staged(context, path, namespace).staged_at(
            context,
            other_path,
        ) == state.staged_at(context, other_path),
        state.guest_of(other) != state.guest_of(context) ==> state.with_staged(
            context,
            path,
            namespace,
        ).registry_of(other) == state.registry_of(other),
        state.staged_at(context, path) is None ==> state.with_staged(
            context,
            path,
            namespace,
        ).without_staged(context, path) == state,
{
    let staged = state.with_staged(context, path, namespace);
    if state.staged_at(context, path) is None {
        let guest = state.guest_of(context).unwrap();
        assert(staged.guests[guest].staged.remove(path) =~= state.guests[guest].staged);
        assert(staged.without_staged(context, path).guests[guest] =~= state.guests[guest]);
        assert(staged.without_staged(context, path).guests =~= state.guests);
    }
}

/// Without a guest nothing is staged.
pub proof fn law_nothing_is_staged_without_a_guest<H, D, I, N>(
    state: StateView<H, D, I, N>,
    context: ContextKey,
    path: Seq<char>,
    namespace: N,
)
    requires
        state.guest_of(context) is None,
    ensures
        state.with_staged(context, path, namespace) == state,
        state.staged_at(context, path) is None,
{
}

/// Every operation keeps the routes of guests apart.
pub proof fn law_routes_stay_private<H: HostModule, D, I, N>(
    state: StateView<H, D, I, N>,
    context: ContextKey,
    bindings: Seq<BindingView<H, D, I>>,
    guest: GuestId,
    path: Seq<char>,
    namespace: N,
)
    requires
        state.keeps_routes_private(),
    ensures
        StateView::<H, D, I, N>::empty().keeps_routes_private(),
        state.with_guest(context, bindings).keeps_routes_private(),
        state.without_guest(guest).keeps_routes_private(),
        state.with_staged(context, path, namespace).keeps_routes_private(),
        state.without_staged(context, path).keeps_routes_private(),
{
    let added = state.with_guest(context, bindings);
    assert forall|g: u64, p: Seq<char>|
        #![trigger added.guests[g].modules.dom().contains(p)]
        added.guests.dom().contains(g) && added.guests[g].modules.dom().contains(
            p,
        ) implies exists|i: int| 0 <= i && p == #[trigger] route(g, i) by {
        if g == state.next_guest {
            let i = choose|i: int| #[trigger] routes_to(g, bindings, p, i);
            assert(p == route(g, i));
        } else {
            assert(state.guests[g].modules.dom().contains(p));
        }
    }
    let removed = state.without_guest(guest);
    assert forall|g: u64, p: Seq<char>|
        #![trigger removed.guests[g].modules.dom().contains(p)]
        removed.guests.dom().contains(g) && removed.guests[g].modules.dom().contains(
            p,
        ) implies exists|i: int| 0 <= i && p == #[trigger] route(g, i) by {
        assert(state.guests[g].modules.dom().contains(p));
    }
    let staged = state.with_staged(context, path, namespace);
    assert forall|g: u64, p: Seq<char>|
        #![trigger staged.guests[g].modules.dom().contains(p)]
        staged.guests.dom().contains(g) && staged.guests[g].modules.dom().contains(
            p,
        ) implies exists|i: int| 0 <= i && p == #[trigger] route(g, i) by {
        assert(state.guests[g].modules.dom().contains(p));
    }
    let taken = state.without_staged(context, path);
    assert forall|g: u64, p: Seq<char>|
        #![trigger taken.guests[g].modules.dom().contains(p)]
        taken.guests.dom().contains(g) && taken.guests[g].modules.dom().contains(
            p,
        ) implies exists|i: int| 0 <= i && p == #[trigger] route(g, i) by {
        assert(state.guests[g].modules.dom().contains(p));
    }
}

/// A guest cannot load a module by a route of another guest.
pub proof fn law_routes_of_other_guests_lead_nowhere<H, D, I, N>(
    state: StateView<H, D, I, N>,
    context: ContextKey,
    other: u64,
    ordinal: int,
)
    requires
        state.keeps_routes_private(),
        state.guest_of(context) != Some(other),
        0 <= ordinal,
    ensures
        state.loaded(context, route(other, ordinal)) is None,
{
    if state.loaded(context, route(other, ordinal)) is Some {
        let guest = state.guest_of(context).unwrap();
        let path = route(other, ordinal);
        assert(state.guests[guest].modules.dom().contains(path));
        let i = choose|i: int| 0 <= i && path == #[trigger] route(guest, i);
        law_routes_are_private(guest, i, other, ordinal);
    }
}

} // verus!
