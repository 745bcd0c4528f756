//! Modules, routes and initializers of guests.

use std::sync::Arc;
use vstd::prelude::*;

use crate::errors::Error;
use crate::host::module::HostModule;
use crate::laws::errors::says_unexpected;
use crate::native::initializer::NativeInitializer;
use crate::registry::bindings::{binding_views, BindingView, LibraryBinding, ModuleRegistration};
use crate::registry::routes::{
    all_contributed, contributed, initializers_of, keep_last, lemma_winner_provides, live,
        provides, route,
    routes_to, winner,
};
use crate::registry::state::{
    unloaded, unresolved, ContextKey, GuestId, GuestRegistration, ModuleRegistry, RuntimeView,
};
use crate::text::decimal_text;

verus! {

/// Whether a binding answers to a specifier: a host module to its own, a native module to its name
/// and its aliases.
pub open spec fn answers<H: HostModule, D, I>(
    binding: BindingView<H, D, I>,
    specifier: Seq<char>,
) -> bool {
    match binding {
        BindingView::Host(module) => module.specifier() == specifier,
        BindingView::Native(module) => module.name == specifier || exists|k: int|
            0 <= k < module.aliases.len() && #[trigger] module.aliases[k] == specifier,
        BindingView::Initializer(_) => false,
    }
}

/// Whether a binding answers to a specifier and none behind it does.
pub open spec fn has_the_last_word<H: HostModule, D, I>(
    bindings: Seq<BindingView<H, D, I>>,
    i: int,
    specifier: Seq<char>,
) -> bool {
    &&& 0 <= i < bindings.len()
    &&& answers(bindings[i], specifier)
    &&& forall|j: int| i < j < bindings.len() ==> !answers(#[trigger] bindings[j], specifier)
}

/// Whether a binding is what is bound.
pub open spec fn stands_for<H: HostModule, D, I>(
    binding: LibraryBinding<H, D, I>,
    view: BindingView<H, D, I>,
) -> bool {
    match binding {
        LibraryBinding::Host(module) => view == BindingView::<H, D, I>::Host(*module),
        LibraryBinding::Native(module) => view == BindingView::<H, D, I>::Native(module@),
        LibraryBinding::Initializer(initializer) => view == BindingView::<H, D, I>::Initializer(
            initializer@,
        ),
    }
}

/// Whether a guest with its own bindings was registered behind the bindings of a runtime, which
/// make up all that is bound for it, the runtime's first.
pub open spec fn registers<H: HostModule, D, I, N>(
    registry: &mut ModuleRegistry<H, D, I, N>,
    context: ContextKey,
    own: Vec<LibraryBinding<H, D, I>>,
    registration: GuestRegistration<I>,
    all: Seq<BindingView<H, D, I>>,
) -> bool {
    &&& call_ensures(
        ModuleRegistry::<H, D, I, N>::register_guest,
        (registry, context, own),
        Ok::<GuestRegistration<I>, Error>(registration),
    )
    &&& all.len() == registry@.bindings.len() + own@.len()
    &&& forall|i: int|
        0 <= i < registry@.bindings.len() ==> #[trigger] all[i] == registry@.bindings[i]
    &&& forall|i: int|
        0 <= i < own@.len() ==> stands_for(
            #[trigger] own@[i],
            all[registry@.bindings.len() + i],
        )
}

proof fn lemma_same_answers<H: HostModule, D, I>(
    binding: BindingView<H, D, I>,
    specifier: Seq<char>,
)
    ensures
        answers(binding, specifier) <==> provides(binding, specifier),
{
    if binding is Native {
        let aliases = binding->Native_0.aliases;
        if aliases.contains(specifier) {
            let k = choose|k: int| 0 <= k < aliases.len() && aliases[k] == specifier;
            assert(aliases[k] == specifier);
        }
    }
}

proof fn lemma_winner_has_the_last_word<H: HostModule, D, I>(
    bindings: Seq<BindingView<H, D, I>>,
    i: int,
    specifier: Seq<char>,
)
    ensures
        has_the_last_word(bindings, i, specifier) <==> winner(bindings, specifier) == Some(i),
        winner(bindings, specifier) is None <==> forall|j: int|
            0 <= j < bindings.len() ==> !answers(#[trigger] bindings[j], specifier),
{
    lemma_winner_provides(bindings, specifier);
    assert forall|j: int| 0 <= j < bindings.len() implies (answers(
        #[trigger] bindings[j],
        specifier,
    ) <==> provides(bindings[j], specifier)) by {
        lemma_same_answers(bindings[j], specifier);
    }
}

proof fn lemma_all_bindings<H: HostModule, D, I, N>(
    registry: &mut ModuleRegistry<H, D, I, N>,
    context: ContextKey,
    own: Vec<LibraryBinding<H, D, I>>,
    registration: GuestRegistration<I>,
    all: Seq<BindingView<H, D, I>>,
)
    requires
        registers(registry, context, own, registration, all),
    ensures
        all == old(registry)@.bindings + binding_views(own@),
        old(registry)@.state.next_guest < u64::MAX,
        registration@.0 == GuestId(old(registry)@.state.next_guest),
        registration@.1 == initializers_of(all),
        final(registry)@ == (RuntimeView {
            state: old(registry)@.state.with_guest(context, all),
            ..old(registry)@
        }),
{
    let joined = old(registry)@.bindings + binding_views(own@);
    assert(binding_views(own@).len() == own@.len());
    assert forall|i: int| 0 <= i < all.len() implies all[i] == joined[i] by {
        let front = old(registry)@.bindings.len();
        if i >= front {
            assert(stands_for(own@[i - front], all[i]));
            assert(binding_views(own@)[i - front] == own@[i - front]@);
        }
    }
    assert(all =~= joined);
}

/// The last binding that answers to a specifier is what an import of it leads to: the specifier
/// resolves to a route, and the route loads that very module.
pub proof fn law_import_leads_to_the_last_binding<H: HostModule, D, I, N>(
    registry: &mut ModuleRegistry<H, D, I, N>,
    context: ContextKey,
    own: Vec<LibraryBinding<H, D, I>>,
    registration: GuestRegistration<I>,
    all: Seq<BindingView<H, D, I>>,
    i: int,
    base: &str,
    name: &str,
    path: Result<String, rquickjs::Error>,
    text: &str,
    module: Result<ModuleRegistration<H, D, I>, rquickjs::Error>,
)
    requires
        registers(registry, context, own, registration, all),
        has_the_last_word(all, i, name@),
        call_ensures(
            ModuleRegistry::<H, D, I, N>::resolve,
            (&*final(registry), context, base, name),
            path,
        ),
        path matches Ok(found) ==> text@ == found@,
        call_ensures(ModuleRegistry::<H, D, I, N>::load, (&*final(registry), context, text),
            module),
    ensures
        path is Ok,
        module matches Ok(ModuleRegistration::Host(host)) ==> all[i] == BindingView::<
            H,
            D,
            I,
        >::Host(*host),
        module matches Ok(ModuleRegistration::Native(native)) ==> all[i] == BindingView::<
            H,
            D,
            I,
        >::Native(native@),
        module is Ok,
{
    lemma_all_bindings(registry, context, own, registration, all);
    lemma_winner_has_the_last_word(all, i, name@);
    let guest = old(registry)@.state.next_guest;
    crate::registry::laws::law_last_registration_wins::<H, D, I, N>(
        context.0,
        guest,
        all,
        name@,
        i,
    );
}

/// A specifier that no binding answers to resolves nowhere, and is reported as it was imported.
pub proof fn law_unknown_imports_are_refused<H: HostModule, D, I, N>(
    registry: &mut ModuleRegistry<H, D, I, N>,
    context: ContextKey,
    own: Vec<LibraryBinding<H, D, I>>,
    registration: GuestRegistration<I>,
    all: Seq<BindingView<H, D, I>>,
    base: &str,
    name: &str,
    path: Result<String, rquickjs::Error>,
    route: Result<String, Error>,
)
    requires
        registers(registry, context, own, registration, all),
        forall|j: int| 0 <= j < all.len() ==> !answers(#[trigger] all[j], name@),
        call_ensures(
            ModuleRegistry::<H, D, I, N>::resolve,
            (&*final(registry), context, base, name),
            path,
        ),
        call_ensures(
            ModuleRegistry::<H, D, I, N>::host_route,
            (&*final(registry), context, name),
            route,
        ),
    ensures
        path == Err::<String, rquickjs::Error>(unresolved(base@, name@)),
        route matches Err(error) && says_unexpected(
            error,
            "host module `"@ + name@ + "` is not registered"@,
        ),
{
    lemma_all_bindings(registry, context, own, registration, all);
    lemma_winner_has_the_last_word(all, 0, name@);
}

/// A specifier has a host route exactly where its last binding is a host module, and the route
/// leads to that module.
pub proof fn law_host_routes_lead_to_host_modules<H: HostModule, D, I, N>(
    registry: &mut ModuleRegistry<H, D, I, N>,
    context: ContextKey,
    own: Vec<LibraryBinding<H, D, I>>,
    registration: GuestRegistration<I>,
    all: Seq<BindingView<H, D, I>>,
    i: int,
    base: &str,
    name: &str,
    path: Result<String, rquickjs::Error>,
    found: Result<String, Error>,
    text: &str,
    module: Option<Arc<H>>,
)
    requires
        registers(registry, context, own, registration, all),
        has_the_last_word(all, i, name@),
        call_ensures(
            ModuleRegistry::<H, D, I, N>::resolve,
            (&*final(registry), context, base, name),
            path,
        ),
        call_ensures(
            ModuleRegistry::<H, D, I, N>::host_route,
            (&*final(registry), context, name),
            found,
        ),
        path matches Ok(given) ==> text@ == given@,
        call_ensures(
            ModuleRegistry::<H, D, I, N>::host_module,
            (&*final(registry), context, text),
            module,
        ),
    ensures
        found is Ok <==> all[i] is Host,
        found matches Ok(given) ==> path is Ok && given@ == path->Ok_0@,
        module is Some <==> all[i] is Host,
        module matches Some(given) ==> all[i] == BindingView::<H, D, I>::Host(*given),
{
    lemma_all_bindings(registry, context, own, registration, all);
    lemma_winner_has_the_last_word(all, i, name@);
    let guest = old(registry)@.state.next_guest;
    crate::registry::laws::law_last_registration_wins::<H, D, I, N>(
        context.0,
        guest,
        all,
        name@,
        i,
    );
}

/// Whether a binding is still reached: it has the last word on some specifier.
pub open spec fn is_reached<H: HostModule, D, I>(
    bindings: Seq<BindingView<H, D, I>>,
    i: int,
) -> bool {
    exists|specifier: Seq<char>| #[trigger] has_the_last_word(bindings, i, specifier)
}

/// Whether a binding offers an initializer as one of its own: a native module that is still reached
/// each of its initializers, and an initializer of its own itself.
pub open spec fn offers<H: HostModule, D, I>(
    bindings: Seq<BindingView<H, D, I>>,
    i: int,
    k: int,
    initializer: (Seq<char>, I),
) -> bool {
    &&& 0 <= i < bindings.len()
    &&& match bindings[i] {
        BindingView::Host(_) => false,
        BindingView::Native(module) => is_reached(bindings, i) && 0 <= k
            < module.initializers.len() && module.initializers[k] == initializer,
        BindingView::Initializer(own) => k == 0 && own == initializer,
    }
}

proof fn lemma_offers<H: HostModule, D, I>(
    bindings: Seq<BindingView<H, D, I>>,
    i: int,
    k: int,
    initializer: (Seq<char>, I),
)
    ensures
        offers(bindings, i, k, initializer) <==> 0 <= i < bindings.len() && 0 <= k < contributed(
            bindings,
            i,
        ).len() && contributed(bindings, i)[k] == initializer,
{
    if is_reached(bindings, i) {
        let specifier = choose|specifier: Seq<char>| #[trigger]
            has_the_last_word(bindings, i, specifier);
        lemma_winner_has_the_last_word(bindings, i, specifier);
        assert(live(bindings, i));
    }
    if live(bindings, i) {
        let specifier = choose|specifier: Seq<char>| #[trigger]
            winner(bindings, specifier) == Some(i);
        lemma_winner_has_the_last_word(bindings, i, specifier);
        assert(is_reached(bindings, i));
    }
}

proof fn lemma_place<H: HostModule, D, I>(
    bindings: Seq<BindingView<H, D, I>>,
    count: nat,
    i: int,
    k: int,
)
    requires
        0 <= i < count <= bindings.len(),
        0 <= k < contributed(bindings, i).len(),
    ensures
        all_contributed(bindings, i as nat).len() + k < all_contributed(bindings, count).len(),
        all_contributed(bindings, count)[all_contributed(bindings, i as nat).len() + k]
            == contributed(bindings, i)[k],
        all_contributed(bindings, i as nat).len() + contributed(bindings, i).len()
            <= all_contributed(bindings, count).len(),
    decreases count,
{
    if i < count - 1 {
        lemma_place(bindings, (count - 1) as nat, i, k);
    }
}

proof fn lemma_place_of<H: HostModule, D, I>(
    bindings: Seq<BindingView<H, D, I>>,
    count: nat,
    at: int,
) -> (place: (int, int))
    requires
        count <= bindings.len(),
        0 <= at < all_contributed(bindings, count).len(),
    ensures
        0 <= place.0 < count,
        0 <= place.1 < contributed(bindings, place.0).len(),
        at == all_contributed(bindings, place.0 as nat).len() + place.1,
        contributed(bindings, place.0)[place.1] == all_contributed(bindings, count)[at],
    decreases count,
{
    let front = all_contributed(bindings, (count - 1) as nat);
    if at < front.len() {
        lemma_place_of(bindings, (count - 1) as nat, at)
    } else {
        (count - 1, at - front.len())
    }
}

proof fn lemma_later_place<H: HostModule, D, I>(
    bindings: Seq<BindingView<H, D, I>>,
    i: int,
    k: int,
    j: int,
    l: int,
)
    requires
        0 <= i < bindings.len(),
        0 <= j < bindings.len(),
        0 <= k < contributed(bindings, i).len(),
        0 <= l < contributed(bindings, j).len(),
    ensures
        all_contributed(bindings, i as nat).len() + k < all_contributed(bindings, j as nat).len()
            + l <==> i < j || (i == j && k < l),
{
    if i < j {
        lemma_place(bindings, j as nat, i, k);
    }
    if j < i {
        lemma_place(bindings, i as nat, j, l);
    }
}

proof fn lemma_initializers_of_registration<H: HostModule, D, I, N>(
    registry: &mut ModuleRegistry<H, D, I, N>,
    context: ContextKey,
    own: Vec<LibraryBinding<H, D, I>>,
    registration: GuestRegistration<I>,
    all: Seq<BindingView<H, D, I>>,
    run: Vec<NativeInitializer<I>>,
)
    requires
        registers(registry, context, own, registration, all),
        call_ensures(GuestRegistration::<I>::into_initializers, (registration,), run),
    ensures
        run@.len() == keep_last(all_contributed(all, all.len())).len(),
        forall|a: int|
            0 <= a < run@.len() ==> (#[trigger] run@[a])@ == keep_last(
                all_contributed(all, all.len()),
            )[a],
{
    lemma_all_bindings(registry, context, own, registration, all);
    let views = crate::native::module::initializer_views(run@);
    assert(views.len() == run@.len());
    assert forall|a: int| 0 <= a < run@.len() implies (#[trigger] run@[a])@ == keep_last(
        all_contributed(all, all.len()),
    )[a] by {
        assert(views[a] == run@[a]@);
    }
}

/// Every initializer that a binding offers runs under its name, whatever aliases its module has and
/// whatever else is bound.
pub proof fn law_offered_initializers_run<H: HostModule, D, I, N>(
    registry: &mut ModuleRegistry<H, D, I, N>,
    context: ContextKey,
    own: Vec<LibraryBinding<H, D, I>>,
    registration: GuestRegistration<I>,
    all: Seq<BindingView<H, D, I>>,
    run: Vec<NativeInitializer<I>>,
    i: int,
    k: int,
    initializer: (Seq<char>, I),
)
    requires
        registers(registry, context, own, registration, all),
        call_ensures(GuestRegistration::<I>::into_initializers, (registration,), run),
        offers(all, i, k, initializer),
    ensures
        exists|a: int| 0 <= a < run@.len() && (#[trigger] run@[a])@.0 == initializer.0,
{
    lemma_initializers_of_registration(registry, context, own, registration, all, run);
    lemma_offers(all, i, k, initializer);
    lemma_place(all, all.len(), i, k);
    let offered = all_contributed(all, all.len());
    let at = all_contributed(all, i as nat).len() + k;
    assert(offered[at].0 == initializer.0);
    assert(crate::registry::routes::has_name(offered, initializer.0));
    crate::registry::laws::law_each_initializer_name_runs_once(offered);
    let kept = keep_last(offered);
    assert(crate::registry::routes::has_name(kept, initializer.0));
    let a = choose|a: int| 0 <= a < kept.len() && (#[trigger] kept[a]).0 == initializer.0;
    assert(run@[a]@.0 == initializer.0);
}

/// Of the initializers of one name the one that is offered last runs.
pub proof fn law_last_offered_initializer_runs<H: HostModule, D, I, N>(
    registry: &mut ModuleRegistry<H, D, I, N>,
    context: ContextKey,
    own: Vec<LibraryBinding<H, D, I>>,
    registration: GuestRegistration<I>,
    all: Seq<BindingView<H, D, I>>,
    run: Vec<NativeInitializer<I>>,
    i: int,
    k: int,
    initializer: (Seq<char>, I),
)
    requires
        registers(registry, context, own, registration, all),
        call_ensures(GuestRegistration::<I>::into_initializers, (registration,), run),
        offers(all, i, k, initializer),
        forall|j: int, l: int, other: (Seq<char>, I)| #[trigger]
            offers(all, j, l, other) && (i < j || (i == j && k < l)) ==> other.0 != initializer.0,
    ensures
        exists|a: int| 0 <= a < run@.len() && (#[trigger] run@[a])@ == initializer,
{
    lemma_initializers_of_registration(registry, context, own, registration, all, run);
    lemma_offers(all, i, k, initializer);
    lemma_place(all, all.len(), i, k);
    let offered = all_contributed(all, all.len());
    let at = all_contributed(all, i as nat).len() + k;
    assert forall|b: int| at < b < offered.len() implies (#[trigger] offered[b]).0
        != offered[at].0 by {
        let place = lemma_place_of(all, all.len(), b);
        lemma_later_place(all, i, k, place.0, place.1);
        lemma_offers(all, place.0, place.1, offered[b]);
        assert(offers(all, place.0, place.1, offered[b]));
    }
    crate::registry::laws::law_last_initializer_of_a_name_runs(offered, at);
    let kept = keep_last(offered);
    let a = choose|a: int| 0 <= a < kept.len() && kept[a] == offered[at];
    assert(run@[a]@ == initializer);
}

/// Nothing runs that no binding offers, and no name runs twice.
pub proof fn law_only_offered_initializers_run<H: HostModule, D, I, N>(
    registry: &mut ModuleRegistry<H, D, I, N>,
    context: ContextKey,
    own: Vec<LibraryBinding<H, D, I>>,
    registration: GuestRegistration<I>,
    all: Seq<BindingView<H, D, I>>,
    run: Vec<NativeInitializer<I>>,
    a: int,
    b: int,
)
    requires
        registers(registry, context, own, registration, all),
        call_ensures(GuestRegistration::<I>::into_initializers, (registration,), run),
        0 <= a < run@.len(),
        0 <= b < run@.len(),
    ensures
        exists|i: int, k: int| #[trigger] offers(all, i, k, run@[a]@),
        run@[a]@.0 == run@[b]@.0 ==> a == b,
{
    lemma_initializers_of_registration(registry, context, own, registration, all, run);
    let offered = all_contributed(all, all.len());
    crate::registry::laws::lemma_kept_is_contributed(offered, a);
    let at = choose|at: int| 0 <= at < offered.len() && #[trigger] offered[at] == keep_last(
        offered,
    )[a];
    let place = lemma_place_of(all, all.len(), at);
    lemma_offers(all, place.0, place.1, offered[at]);
    assert(offers(all, place.0, place.1, run@[a]@));
    crate::registry::laws::law_each_initializer_name_runs_once(offered);
    assert(run@[a]@ == keep_last(offered)[a]);
    assert(run@[b]@ == keep_last(offered)[b]);
}

/// Initializers run in the order of the bindings that offer them, and those of one module in the
/// order in which the module lists them.
pub proof fn law_initializers_run_in_the_order_of_the_bindings<H: HostModule, D, I, N>(
    registry: &mut ModuleRegistry<H, D, I, N>,
    context: ContextKey,
    own: Vec<LibraryBinding<H, D, I>>,
    registration: GuestRegistration<I>,
    all: Seq<BindingView<H, D, I>>,
    run: Vec<NativeInitializer<I>>,
    a: int,
    b: int,
)
    requires
        registers(registry, context, own, registration, all),
        call_ensures(GuestRegistration::<I>::into_initializers, (registration,), run),
        0 <= a < b < run@.len(),
    ensures
        exists|i: int, k: int, j: int, l: int| #[trigger]
            offers(all, i, k, run@[a]@) && #[trigger] offers(all, j, l, run@[b]@) && (i < j || (i
                == j && k < l)),
{
    lemma_initializers_of_registration(registry, context, own, registration, all, run);
    let offered = all_contributed(all, all.len());
    crate::registry::laws::law_initializers_run_in_binding_order(offered, a, b);
    let kept = keep_last(offered);
    let (x, y) = choose|x: int, y: int|
        0 <= x < y < offered.len() && #[trigger] offered[x] == kept[a] && #[trigger] offered[y]
            == kept[b];
    let first = lemma_place_of(all, all.len(), x);
    let second = lemma_place_of(all, all.len(), y);
    lemma_offers(all, first.0, first.1, offered[x]);
    lemma_offers(all, second.0, second.1, offered[y]);
    lemma_later_place(all, first.0, first.1, second.0, second.1);
    assert(offers(all, first.0, first.1, run@[a]@));
    assert(offers(all, second.0, second.1, run@[b]@));
}

/// A registry starts with its bindings and without guests: no context resolves, loads or holds
/// anything.
pub proof fn law_new_registry_has_no_guests<H: HostModule, D, I, N>(
    bindings: Vec<LibraryBinding<H, D, I>>,
    registry: ModuleRegistry<H, D, I, N>,
    i: int,
    context: ContextKey,
    base: &str,
    name: &str,
    path: Result<String, rquickjs::Error>,
    module: Result<ModuleRegistration<H, D, I>, rquickjs::Error>,
)
    requires
        call_ensures(ModuleRegistry::<H, D, I, N>::new, (bindings,), registry),
        call_ensures(
            ModuleRegistry::<H, D, I, N>::resolve,
            (&registry, context, base, name),
            path,
        ),
        call_ensures(ModuleRegistry::<H, D, I, N>::load, (&registry, context, name), module),
    ensures
        registry@.bindings.len() == bindings@.len(),
        0 <= i < bindings@.len() ==> stands_for(bindings@[i], registry@.bindings[i]),
        path == Err::<String, rquickjs::Error>(unresolved(base@, name@)),
        module matches Err(error) && error == unloaded(name@),
{
    assert(binding_views(bindings@).len() == bindings@.len());
    if 0 <= i < bindings@.len() {
        assert(binding_views(bindings@)[i] == bindings@[i]@);
    }
}

/// A guest is registered exactly where there is an identity left, and two guests never share one.
pub proof fn law_identities_are_given_once<H: HostModule, D, I, N>(
    registry: &mut ModuleRegistry<H, D, I, N>,
    context: ContextKey,
    own: Vec<LibraryBinding<H, D, I>>,
    outcome: Result<GuestRegistration<I>, Error>,
    next: &mut ModuleRegistry<H, D, I, N>,
    other: ContextKey,
    others: Vec<LibraryBinding<H, D, I>>,
    second: Result<GuestRegistration<I>, Error>,
    id: GuestId,
    second_id: GuestId,
)
    requires
        call_ensures(
            ModuleRegistry::<H, D, I, N>::register_guest,
            (registry, context, own),
            outcome,
        ),
        *old(next) == *final(registry),
        call_ensures(
            ModuleRegistry::<H, D, I, N>::register_guest,
            (next, other, others),
            second,
        ),
        outcome matches Ok(registration) ==> call_ensures(
            GuestRegistration::<I>::id,
            (&registration,),
            id,
        ),
        second matches Ok(registration) ==> call_ensures(
            GuestRegistration::<I>::id,
            (&registration,),
            second_id,
        ),
    ensures
        outcome is Ok <==> old(registry)@.state.next_guest < u64::MAX,
        outcome is Ok && second is Ok ==> id.0 < second_id.0,
        outcome is Ok ==> final(registry)@.state.guests.dom()
            == old(registry)@.state.guests.dom().insert(id.0),
        outcome matches Err(error) ==> says_unexpected(error, "guest identifier space exhausted"@)
            && final(registry)@ == old(registry)@,
        final(registry)@.bindings == old(registry)@.bindings,
{
}

/// Registering a guest changes nothing for any other context.
pub proof fn law_other_contexts_keep_their_modules<H: HostModule, D, I, N>(
    registry: &mut ModuleRegistry<H, D, I, N>,
    context: ContextKey,
    own: Vec<LibraryBinding<H, D, I>>,
    outcome: Result<GuestRegistration<I>, Error>,
    other: ContextKey,
    base: &str,
    name: &str,
    path_before: Result<String, rquickjs::Error>,
    path_after: Result<String, rquickjs::Error>,
    module_before: Result<ModuleRegistration<H, D, I>, rquickjs::Error>,
    module_after: Result<ModuleRegistration<H, D, I>, rquickjs::Error>,
)
    requires
        call_ensures(
            ModuleRegistry::<H, D, I, N>::register_guest,
            (registry, context, own),
            outcome,
        ),
        other != context,
        old(registry)@.state.contexts.dom().contains(other.0)
            ==> old(registry)@.state.contexts[other.0] != old(registry)@.state.next_guest,
        call_ensures(
            ModuleRegistry::<H, D, I, N>::resolve,
            (&*old(registry), other, base, name),
            path_before,
        ),
        call_ensures(
            ModuleRegistry::<H, D, I, N>::resolve,
            (&*final(registry), other, base, name),
            path_after,
        ),
        call_ensures(
            ModuleRegistry::<H, D, I, N>::load,
            (&*old(registry), other, name),
            module_before,
        ),
        call_ensures(
            ModuleRegistry::<H, D, I, N>::load,
            (&*final(registry), other, name),
            module_after,
        ),
    ensures
        path_before is Ok <==> path_after is Ok,
        path_before is Ok ==> path_before->Ok_0@ == path_after->Ok_0@,
        module_before is Ok <==> module_after is Ok,
        module_before is Ok ==> module_before->Ok_0@ == module_after->Ok_0@,
{
}

/// A route of one guest loads nothing for another, also where both are bound to the same modules.
pub proof fn law_routes_of_another_guest_load_nothing<H: HostModule, D, I, N>(
    registry: &mut ModuleRegistry<H, D, I, N>,
    context: ContextKey,
    own: Vec<LibraryBinding<H, D, I>>,
    registration: GuestRegistration<I>,
    all: Seq<BindingView<H, D, I>>,
    next: &mut ModuleRegistry<H, D, I, N>,
    other: ContextKey,
    others: Vec<LibraryBinding<H, D, I>>,
    second: GuestRegistration<I>,
    all_others: Seq<BindingView<H, D, I>>,
    base: &str,
    name: &str,
    path: String,
    text: &str,
    module: Result<ModuleRegistration<H, D, I>, rquickjs::Error>,
)
    requires
        registers(registry, context, own, registration, all),
        *old(next) == *final(registry),
        registers(next, other, others, second, all_others),
        other != context,
        call_ensures(
            ModuleRegistry::<H, D, I, N>::resolve,
            (&*final(next), context, base, name),
            Ok::<String, rquickjs::Error>(path),
        ),
        text@ == path@,
        call_ensures(ModuleRegistry::<H, D, I, N>::load, (&*final(next), other, text), module),
    ensures
        module matches Err(error) && error == unloaded(path@),
{
    lemma_all_bindings(registry, context, own, registration, all);
    lemma_all_bindings(next, other, others, second, all_others);
    let guest = old(registry)@.state.next_guest;
    let second_guest = old(next)@.state.next_guest;
    let i = winner(all, name@).unwrap();
    lemma_winner_provides(all, name@);
    assert(path@ == route(guest, i));
    if module is Ok {
        let j = choose|j: int| #[trigger] routes_to(second_guest, all_others, path@, j);
        crate::registry::routes::law_routes_are_private(guest, i, second_guest, j);
    }
}

/// What is staged in the context of a guest is handed out under its route, once, and to no other
/// context or route.
pub proof fn law_staged_exports_are_handed_out_once<H: HostModule, D, I, N>(
    registry: &mut ModuleRegistry<H, D, I, N>,
    context: ContextKey,
    path: String,
    namespace: N,
    text: &str,
    first: &mut ModuleRegistry<H, D, I, N>,
    taken: Option<N>,
    again: &mut ModuleRegistry<H, D, I, N>,
    second: Option<N>,
    elsewhere: &mut ModuleRegistry<H, D, I, N>,
    other_text: &str,
    found: Option<N>,
    untouched: &mut ModuleRegistry<H, D, I, N>,
    found_before: Option<N>,
)
    requires
        call_ensures(
            ModuleRegistry::<H, D, I, N>::stage,
            (registry, context, path, namespace),
            (),
        ),
        old(registry)@.state.contexts.dom().contains(context.0),
        old(registry)@.state.guests.dom().contains(old(registry)@.state.contexts[context.0]),
        text@ == path@,
        *old(first) == *final(registry),
        call_ensures(ModuleRegistry::<H, D, I, N>::take_staged, (first, context, text), taken),
        *old(again) == *final(first),
        call_ensures(ModuleRegistry::<H, D, I, N>::take_staged, (again, context, text), second),
        other_text@ != path@,
        *old(elsewhere) == *final(registry),
        call_ensures(
            ModuleRegistry::<H, D, I, N>::take_staged,
            (elsewhere, context, other_text),
            found,
        ),
        *old(untouched) == *old(registry),
        call_ensures(
            ModuleRegistry::<H, D, I, N>::take_staged,
            (untouched, context, other_text),
            found_before,
        ),
    ensures
        taken == Some(namespace),
        second is None,
        found == found_before,
        final(registry)@.bindings == old(registry)@.bindings,
        final(registry)@.state.contexts == old(registry)@.state.contexts,
        final(registry)@.state.next_guest == old(registry)@.state.next_guest,
{
}

/// Staging and taking change nothing for the context of another guest, and nothing about what
/// resolves and loads.
pub proof fn law_staging_touches_only_its_guest<H: HostModule, D, I, N>(
    registry: &mut ModuleRegistry<H, D, I, N>,
    context: ContextKey,
    path: String,
    namespace: N,
    taking: &mut ModuleRegistry<H, D, I, N>,
    text: &str,
    taken: Option<N>,
    guest: u64,
)
    requires
        call_ensures(
            ModuleRegistry::<H, D, I, N>::stage,
            (registry, context, path, namespace),
            (),
        ),
        call_ensures(ModuleRegistry::<H, D, I, N>::take_staged, (taking, context, text), taken),
    ensures
        final(registry)@.state.guests.dom() == old(registry)@.state.guests.dom(),
        final(taking)@.state.guests.dom() == old(taking)@.state.guests.dom(),
        final(taking)@.state.contexts == old(taking)@.state.contexts,
        final(taking)@.state.next_guest == old(taking)@.state.next_guest,
        final(taking)@.bindings == old(taking)@.bindings,
        old(registry)@.state.guests.dom().contains(guest) ==> ({
            let before = old(registry)@.state.guests[guest];
            let after = final(registry)@.state.guests[guest];
            &&& after.context == before.context
            &&& after.specifiers == before.specifiers
            &&& after.modules == before.modules
            &&& !(old(registry)@.state.contexts.dom().contains(context.0)
                && old(registry)@.state.contexts[context.0] == guest) ==> after.staged
                == before.staged
        }),
        old(taking)@.state.guests.dom().contains(guest) ==> ({
            let before = old(taking)@.state.guests[guest];
            let after = final(taking)@.state.guests[guest];
            &&& after.context == before.context
            &&& after.specifiers == before.specifiers
            &&& after.modules == before.modules
            &&& !(old(taking)@.state.contexts.dom().contains(context.0)
                && old(taking)@.state.contexts[context.0] == guest) ==> after.staged
                == before.staged
        }),
{
    assert(final(registry)@.state.guests.dom() =~= old(registry)@.state.guests.dom());
    assert(final(taking)@.state.guests.dom() =~= old(taking)@.state.guests.dom());
}

/// A guest that is taken out leaves nothing in its context, and every other guest stays as it is.
pub proof fn law_removed_guest_leaves_nothing<H: HostModule, D, I, N>(
    registry: &mut ModuleRegistry<H, D, I, N>,
    context: ContextKey,
    own: Vec<LibraryBinding<H, D, I>>,
    registration: GuestRegistration<I>,
    all: Seq<BindingView<H, D, I>>,
    id: GuestId,
    next: &mut ModuleRegistry<H, D, I, N>,
    base: &str,
    name: &str,
    path: Result<String, rquickjs::Error>,
    module: Result<ModuleRegistration<H, D, I>, rquickjs::Error>,
    taking: &mut ModuleRegistry<H, D, I, N>,
    taken: Option<N>,
    other: u64,
)
    requires
        registers(registry, context, own, registration, all),
        call_ensures(GuestRegistration::<I>::id, (&registration,), id),
        *old(next) == *final(registry),
        call_ensures(ModuleRegistry::<H, D, I, N>::unregister_guest, (next, id), ()),
        call_ensures(
            ModuleRegistry::<H, D, I, N>::resolve,
            (&*final(next), context, base, name),
            path,
        ),
        call_ensures(ModuleRegistry::<H, D, I, N>::load, (&*final(next), context, name), module),
        *old(taking) == *final(next),
        call_ensures(ModuleRegistry::<H, D, I, N>::take_staged, (taking, context, name), taken),
    ensures
        path is Err,
        module is Err,
        taken is None,
        !final(next)@.state.guests.dom().contains(id.0),
        other != id.0 ==> (final(next)@.state.guests.dom().contains(other)
            <==> old(next)@.state.guests.dom().contains(other)),
        other != id.0 && old(next)@.state.guests.dom().contains(other)
            ==> final(next)@.state.guests[other] == old(next)@.state.guests[other],
        final(next)@.bindings == old(next)@.bindings,
{
    lemma_all_bindings(registry, context, own, registration, all);
}

/// Taking a guest out keeps the context of another guest, also where that took the context over.
pub proof fn law_removal_keeps_the_contexts_of_others<H: HostModule, D, I, N>(
    registry: &mut ModuleRegistry<H, D, I, N>,
    guest: GuestId,
    context: usize,
)
    requires
        call_ensures(ModuleRegistry::<H, D, I, N>::unregister_guest, (registry, guest), ()),
        old(registry)@.state.contexts.dom().contains(context),
        old(registry)@.state.contexts[context] != guest.0,
    ensures
        final(registry)@.state.contexts.dom().contains(context),
        final(registry)@.state.contexts[context] == old(registry)@.state.contexts[context],
        final(registry)@.state.next_guest == old(registry)@.state.next_guest,
        !old(registry)@.state.guests.dom().contains(guest.0) ==> final(registry)@ == old(registry)@,
{
}

/// A context that a later guest takes over sees what the later guest is bound to.
pub proof fn law_context_follows_its_last_guest<H: HostModule, D, I, N>(
    registry: &mut ModuleRegistry<H, D, I, N>,
    context: ContextKey,
    own: Vec<LibraryBinding<H, D, I>>,
    registration: GuestRegistration<I>,
    all: Seq<BindingView<H, D, I>>,
)
    requires
        registers(registry, context, own, registration, all),
    ensures
        final(registry)@.state.contexts.dom().contains(context.0),
        final(registry)@.state.contexts[context.0] == registration@.0.0,
        final(registry)@.state.guests.dom().contains(registration@.0.0),
        final(registry)@.state.guests[registration@.0.0].context == context.0,
        final(registry)@.state.guests[registration@.0.0].staged.dom() =~= Set::empty(),
{
    lemma_all_bindings(registry, context, own, registration, all);
}

/// Staging exports and taking them change nothing under another route, and what is taken is what
/// is staged for the guest of the context.
pub proof fn law_staging_changes_nothing_else<H: HostModule, D, I, N>(
    registry: &mut ModuleRegistry<H, D, I, N>,
    context: ContextKey,
    path: String,
    namespace: N,
    taking: &mut ModuleRegistry<H, D, I, N>,
    text: &str,
    taken: Option<N>,
    guest: u64,
    other: Seq<char>,
)
    requires
        call_ensures(
            ModuleRegistry::<H, D, I, N>::stage,
            (registry, context, path, namespace),
            (),
        ),
        call_ensures(ModuleRegistry::<H, D, I, N>::take_staged, (taking, context, text), taken),
        old(registry)@.state.guests.dom().contains(guest),
        old(taking)@.state.guests.dom().contains(guest),
    ensures
        other != path@ ==> (final(registry)@.state.guests[guest].staged.dom().contains(other)
            <==> old(registry)@.state.guests[guest].staged.dom().contains(other)),
        other != path@ && old(registry)@.state.guests[guest].staged.dom().contains(other)
            ==> final(registry)@.state.guests[guest].staged[other]
            == old(registry)@.state.guests[guest].staged[other],
        other != text@ ==> (final(taking)@.state.guests[guest].staged.dom().contains(other)
            <==> old(taking)@.state.guests[guest].staged.dom().contains(other)),
        other != text@ && old(taking)@.state.guests[guest].staged.dom().contains(other)
            ==> final(taking)@.state.guests[guest].staged[other]
            == old(taking)@.state.guests[guest].staged[other],
        old(taking)@.state.contexts.dom().contains(context.0)
            && old(taking)@.state.contexts[context.0] == guest ==> (taken is Some
            <==> old(taking)@.state.guests[guest].staged.dom().contains(text@)) && (
        taken matches Some(own) ==> own == old(taking)@.state.guests[guest].staged[text@]),
{
}

/// The route of a specifier names the guest and the place of the binding among all of them.
pub proof fn law_routes_name_the_guest_and_the_binding<H: HostModule, D, I, N>(
    registry: &mut ModuleRegistry<H, D, I, N>,
    context: ContextKey,
    own: Vec<LibraryBinding<H, D, I>>,
    registration: GuestRegistration<I>,
    all: Seq<BindingView<H, D, I>>,
    id: GuestId,
    i: int,
    base: &str,
    name: &str,
    path: Result<String, rquickjs::Error>,
    guest_text: String,
    place: u64,
    place_text: String,
)
    requires
        registers(registry, context, own, registration, all),
        has_the_last_word(all, i, name@),
        call_ensures(GuestRegistration::<I>::id, (&registration,), id),
        call_ensures(
            ModuleRegistry::<H, D, I, N>::resolve,
            (&*final(registry), context, base, name),
            path,
        ),
        call_ensures(decimal_text, (id.0,), guest_text),
        place == i,
        call_ensures(decimal_text, (place,), place_text),
    ensures
        path matches Ok(text) && text@ == "guestjs:module:"@ + guest_text@ + seq![':']
            + place_text@,
{
    lemma_all_bindings(registry, context, own, registration, all);
    lemma_winner_has_the_last_word(all, i, name@);
}

} // verus!
