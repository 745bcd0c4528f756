//! The registry of one guest.

use std::sync::Arc;
use vstd::prelude::*;

use crate::host::module::HostModule;
use crate::names::NameMap;
use crate::native::initializer::NativeInitializer;
use crate::native::module::{initializer_views, texts};
use crate::registry::bindings::{
    binding_views, BindingView, LibraryBinding, ModuleRegistration,
};
use crate::registry::routes::{
    all_contributed, fresh_guest, has_name, initializers_of, keep_last, law_routes_are_private,
    lemma_winner_provides, live, modules_of, provides, route, routes_to, specifiers_of, winner,
    GuestView,
};
use crate::sequences::reverse;
use crate::text::decimal_text;

verus! {

/// The texts of the values of a map.
pub open spec fn text_values(values: Map<Seq<char>, String>) -> Map<Seq<char>, Seq<char>> {
    values.map_values(|text: String| text@)
}

/// What the values of a map of modules stand for.
pub open spec fn module_values<H, D, I>(
    values: Map<Seq<char>, ModuleRegistration<H, D, I>>,
) -> Map<Seq<char>, BindingView<H, D, I>> {
    values.map_values(|module: ModuleRegistration<H, D, I>| module@)
}

/// Whether a map holds the winner of every specifier.
spec fn holds_winners<H: HostModule, D, I>(
    winners: Map<Seq<char>, usize>,
    bindings: Seq<BindingView<H, D, I>>,
) -> bool {
    forall|specifier: Seq<char>|
        #![trigger winners.dom().contains(specifier)]
        #![trigger winner(bindings, specifier)]
        match winner(bindings, specifier) {
            Some(i) => winners.dom().contains(specifier) && winners[specifier] == i,
            None => !winners.dom().contains(specifier),
        }
}

fn route_text(guest: u64, ordinal: usize) -> (r: String)
    ensures
        r@ == route(guest, ordinal as int),
{
    let mut text = "guestjs:module:".to_owned();
    text.append(decimal_text(guest).as_str());
    text.append(":");
    text.append(decimal_text(ordinal as u64).as_str());
    proof {
        reveal_strlit(":");
        assert(":"@ =~= seq![':']);
    }
    text
}

fn find_winners<H: HostModule, D, I>(bindings: &Vec<LibraryBinding<H, D, I>>) -> (r: NameMap<usize>)
    ensures
        holds_winners(r@, binding_views(bindings@)),
{
    let ghost views = binding_views(bindings@);
    let mut winners: NameMap<usize> = NameMap::new();
    let mut i: usize = 0;
    assert(holds_winners(winners@, views.take(0)));
    while i < bindings.len()
        invariant
            i <= bindings@.len(),
            views == binding_views(bindings@),
            holds_winners(winners@, views.take(i as int)),
        decreases bindings@.len() - i,
    {
        let ghost before = winners@;
        let ghost next = views.take(i + 1);
        proof {
            assert(next.drop_last() =~= views.take(i as int));
            assert(next.last() == bindings@[i as int]@);
        }
        match &bindings[i] {
            LibraryBinding::Host(module) => {
                winners.insert(module.name().to_owned(), i);
                assert(holds_winners(winners@, next)) by {
                    assert forall|specifier: Seq<char>|
                        match #[trigger] winner(next, specifier) {
                            Some(j) => winners@.dom().contains(specifier) && winners@[specifier]
                                == j,
                            None => !winners@.dom().contains(specifier),
                        } by {
                        assert(winner(views.take(i as int), specifier) is Some
                            <==> before.dom().contains(specifier));
                    }
                }
            }
            LibraryBinding::Native(module) => {
                winners.insert(module.name().to_owned(), i);
                let aliases = module.aliases();
                let mut k: usize = 0;
                while k < aliases.len()
                    invariant
                        k <= aliases@.len(),
                        texts(aliases@) == module@.aliases,
                        forall|specifier: Seq<char>|
                            #![trigger winners@.dom().contains(specifier)]
                            if module@.name == specifier || texts(aliases@).take(
                                k as int,
                            ).contains(specifier) {
                                winners@.dom().contains(specifier) && winners@[specifier] == i
                            } else {
                                winners@.dom().contains(specifier) == before.dom().contains(
                                    specifier,
                                ) && winners@[specifier] == before[specifier]
                            },
                    decreases aliases@.len() - k,
                {
                    let ghost previous = winners@;
                    let ghost seen = texts(aliases@).take(k as int);
                    winners.insert(aliases[k].clone(), i);
                    proof {
                        let alias = aliases@[k as int]@;
                        assert(texts(aliases@)[k as int] == alias);
                        let more = texts(aliases@).take(k + 1);
                        assert(more =~= seen.push(alias));
                        assert forall|specifier: Seq<char>|
                            #![trigger winners@.dom().contains(specifier)]
                            if module@.name == specifier || more.contains(specifier) {
                                winners@.dom().contains(specifier) && winners@[specifier] == i
                            } else {
                                winners@.dom().contains(specifier) == before.dom().contains(
                                    specifier,
                                ) && winners@[specifier] == before[specifier]
                            } by {
                            assert(previous.dom().contains(specifier)
                                == previous.dom().contains(specifier));
                            if seen.contains(specifier) {
                                let at = seen.index_of(specifier);
                                assert(more[at] == specifier);
                            }
                            if more.contains(specifier) && specifier != alias {
                                let at = more.index_of(specifier);
                                assert(seen[at] == specifier);
                            }
                            if specifier == alias {
                                assert(more[k as int] == alias);
                            }
                        }
                    }
                    k += 1;
                }
                assert(texts(aliases@).take(k as int) =~= module@.aliases);
                assert(holds_winners(winners@, next)) by {
                    assert forall|specifier: Seq<char>|
                        match #[trigger] winner(next, specifier) {
                            Some(j) => winners@.dom().contains(specifier) && winners@[specifier]
                                == j,
                            None => !winners@.dom().contains(specifier),
                        } by {
                        let provided = module@.name == specifier || module@.aliases.contains(
                            specifier,
                        );
                        assert(provides(next.last(), specifier) == provided);
                        assert(provided ==> winners@.dom().contains(specifier)
                            && winners@[specifier] == i);
                        assert(!provided ==> winners@.dom().contains(specifier)
                            == before.dom().contains(specifier) && winners@[specifier]
                            == before[specifier]);
                        assert(winner(views.take(i as int), specifier) is Some
                            <==> before.dom().contains(specifier));
                    }
                }
            }
            LibraryBinding::Initializer(_) => {
                assert(holds_winners(winners@, next)) by {
                    assert forall|specifier: Seq<char>|
                        match #[trigger] winner(next, specifier) {
                            Some(j) => winners@.dom().contains(specifier) && winners@[specifier]
                                == j,
                            None => !winners@.dom().contains(specifier),
                        } by {
                        assert(winner(views.take(i as int), specifier) is Some
                            <==> before.dom().contains(specifier));
                    }
                }
            }
        }
        i += 1;
    }
    assert(views.take(i as int) =~= views);
    winners
}

/// The value of a key, where it has one.
pub open spec fn lookup<K, V>(values: Map<K, V>, key: K) -> Option<V> {
    if values.dom().contains(key) {
        Some(values[key])
    } else {
        None
    }
}

/// The route that a specifier has if only the first bindings are led to.
spec fn route_upto<H: HostModule, D, I>(
    guest: u64,
    bindings: Seq<BindingView<H, D, I>>,
    count: int,
    specifier: Seq<char>,
) -> Option<Seq<char>> {
    match winner(bindings, specifier) {
        Some(i) => if i < count {
            Some(route(guest, i))
        } else {
            None
        },
        None => None,
    }
}

/// Whether the specifiers of the first bindings lead to their routes.
spec fn specifiers_upto<H: HostModule, D, I>(
    specifiers: Map<Seq<char>, Seq<char>>,
    guest: u64,
    bindings: Seq<BindingView<H, D, I>>,
    count: int,
) -> bool {
    forall|specifier: Seq<char>| #[trigger]
        lookup(specifiers, specifier) == route_upto(guest, bindings, count, specifier)
}

/// Whether the routes of the first bindings that are live lead to their modules.
spec fn modules_upto<H: HostModule, D, I>(
    modules: Map<Seq<char>, BindingView<H, D, I>>,
    guest: u64,
    bindings: Seq<BindingView<H, D, I>>,
    count: int,
) -> bool {
    &&& forall|path: Seq<char>| #[trigger]
        modules.dom().contains(path) ==> exists|i: int|
            i < count && #[trigger] routes_to(guest, bindings, path, i)
    &&& forall|i: int|
        0 <= i < count && #[trigger] live(bindings, i) ==> modules.dom().contains(route(guest, i))
            && modules[route(guest, i)] == bindings[i]
}

/// Leads a specifier to a route if the binding with an ordinal is its winner.
fn claim(
    winners: &NameMap<usize>,
    specifiers: &mut NameMap<String>,
    specifier: &str,
    ordinal: usize,
    path: &String,
) -> (r: bool)
    ensures
        r == (winners@.dom().contains(specifier@) && winners@[specifier@] == ordinal),
        text_values(final(specifiers)@) == (if r {
            text_values(old(specifiers)@).insert(specifier@, path@)
        } else {
            text_values(old(specifiers)@)
        }),
{
    match winners.get(specifier) {
        Some(winner) => {
            if *winner == ordinal {
                specifiers.insert(specifier.to_owned(), path.clone());
                assert(text_values(specifiers@) =~= text_values(old(specifiers)@).insert(
                    specifier@,
                    path@,
                ));
                true
            } else {
                false
            }
        }
        None => false,
    }
}

/// Leads every specifier that a binding wins to its route, and says whether there was one.
fn claim_all<H: HostModule, D, I>(
    winners: &NameMap<usize>,
    specifiers: &mut NameMap<String>,
    bindings: &Vec<LibraryBinding<H, D, I>>,
    ordinal: usize,
    guest: u64,
    path: &String,
) -> (r: bool)
    requires
        ordinal < bindings@.len(),
        path@ == route(guest, ordinal as int),
        holds_winners(winners@, binding_views(bindings@)),
        specifiers_upto(
            text_values(old(specifiers)@),
            guest,
            binding_views(bindings@),
            ordinal as int,
        ),
    ensures
        r == live(binding_views(bindings@), ordinal as int),
        specifiers_upto(
            text_values(final(specifiers)@),
            guest,
            binding_views(bindings@),
            ordinal + 1,
        ),
{
    let ghost views = binding_views(bindings@);
    let ghost before = text_values(specifiers@);
    let ghost binding = views[ordinal as int];
    let ghost wins = |specifier: Seq<char>| winner(views, specifier) == Some(ordinal as int);
    proof {
        assert forall|specifier: Seq<char>| #[trigger] wins(specifier) implies provides(
            binding,
            specifier,
        ) by {
            lemma_winner_provides(views, specifier);
        }
        if live(views, ordinal as int) {
            let specifier = choose|specifier: Seq<char>| #[trigger]
                winner(views, specifier) == Some(ordinal as int);
            assert(wins(specifier));
        }
    }
    match &bindings[ordinal] {
        LibraryBinding::Host(module) => {
            let name = module.name();
            let won = claim(winners, specifiers, name, ordinal, path);
            proof {
                let after = text_values(specifiers@);
                assert(won == wins(name@));
                assert forall|specifier: Seq<char>| #[trigger]
                    lookup(after, specifier) == route_upto(
                        guest,
                        views,
                        ordinal + 1,
                        specifier,
                    ) by {
                    assert(lookup(before, specifier) == route_upto(
                        guest,
                        views,
                        ordinal as int,
                        specifier,
                    ));
                    assert(wins(specifier) ==> specifier == name@);
                }
            }
            won
        }
        LibraryBinding::Native(module) => {
            let mut won = claim(winners, specifiers, module.name(), ordinal, path);
            let aliases = module.aliases();
            let mut k: usize = 0;
            proof {
                assert(texts(aliases@).take(0) =~= Seq::empty());
                assert(won == wins(module@.name));
            }
            while k < aliases.len()
                invariant
                    k <= aliases@.len(),
                    texts(aliases@) == module@.aliases,
                    views == binding_views(bindings@),
                    holds_winners(winners@, views),
                    wins == (|specifier: Seq<char>|
                        winner(views, specifier) == Some(ordinal as int)),
                    won <==> wins(module@.name) || exists|j: int|
                        0 <= j < k && wins(#[trigger] texts(aliases@)[j]),
                    forall|specifier: Seq<char>| #[trigger]
                        lookup(text_values(specifiers@), specifier) == (if wins(specifier) && (
                        module@.name == specifier || texts(aliases@).take(k as int).contains(
                            specifier,
                        )) {
                            Some(path@)
                        } else {
                            lookup(before, specifier)
                        }),
                decreases aliases@.len() - k,
            {
                let ghost previous = text_values(specifiers@);
                let ghost seen = texts(aliases@).take(k as int);
                let ghost won_before = won;
                if claim(winners, specifiers, aliases[k].as_str(), ordinal, path) {
                    won = true;
                }
                proof {
                    let alias = aliases@[k as int]@;
                    let after = text_values(specifiers@);
                    assert(texts(aliases@)[k as int] == alias);
                    let more = texts(aliases@).take(k + 1);
                    assert(more =~= seen.push(alias));
                    assert(winner(views, alias) == winner(views, alias));
                    assert forall|specifier: Seq<char>| #[trigger]
                        lookup(after, specifier) == (if wins(specifier) && (module@.name
                            == specifier || more.contains(specifier)) {
                            Some(path@)
                        } else {
                            lookup(before, specifier)
                        }) by {
                        assert(lookup(previous, specifier) == lookup(previous, specifier));
                        if seen.contains(specifier) {
                            let at = seen.index_of(specifier);
                            assert(more[at] == specifier);
                        }
                        if specifier == alias {
                            assert(more[k as int] == alias);
                        }
                        if more.contains(specifier) && specifier != alias {
                            let at = more.index_of(specifier);
                            assert(seen[at] == specifier);
                        }
                    }
                }
                k += 1;
            }
            proof {
                let after = text_values(specifiers@);
                assert(texts(aliases@).take(k as int) =~= module@.aliases);
                assert forall|specifier: Seq<char>| #[trigger]
                    lookup(after, specifier) == route_upto(
                        guest,
                        views,
                        ordinal + 1,
                        specifier,
                    ) by {
                    assert(lookup(before, specifier) == route_upto(
                        guest,
                        views,
                        ordinal as int,
                        specifier,
                    ));
                    assert(wins(specifier) ==> provides(binding, specifier));
                }
                if live(views, ordinal as int) {
                    let specifier = choose|specifier: Seq<char>| #[trigger] wins(specifier);
                    assert(provides(binding, specifier));
                    if module@.name != specifier {
                        let j = module@.aliases.index_of(specifier);
                        assert(wins(texts(aliases@)[j]));
                    }
                }
                if won {
                    if wins(module@.name) {
                        assert(winner(views, module@.name) == Some(ordinal as int));
                    } else {
                        let j = choose|j: int| 0 <= j < k && wins(#[trigger] texts(aliases@)[j]);
                        assert(winner(views, texts(aliases@)[j]) == Some(ordinal as int));
                    }
                }
            }
            won
        }
        LibraryBinding::Initializer(_) => {
            proof {
                assert forall|specifier: Seq<char>| #[trigger]
                    lookup(before, specifier) == route_upto(
                        guest,
                        views,
                        ordinal + 1,
                        specifier,
                    ) by {
                    assert(lookup(before, specifier) == route_upto(
                        guest,
                        views,
                        ordinal as int,
                        specifier,
                    ));
                    assert(wins(specifier) ==> provides(binding, specifier));
                }
            }
            false
        }
    }
}

/// Collects what the bindings contribute to the initializers, in the order of the bindings.
fn collect_initializers<H: HostModule, D, I>(
    bindings: &Vec<LibraryBinding<H, D, I>>,
    alive: &Vec<bool>,
) -> (r: Vec<NativeInitializer<I>>)
    requires
        alive@.len() == bindings@.len(),
        forall|i: int|
            0 <= i < bindings@.len() ==> #[trigger] alive@[i] == live(binding_views(bindings@), i),
    ensures
        initializer_views(r@) == all_contributed(binding_views(bindings@), bindings@.len()),
{
    let ghost views = binding_views(bindings@);
    let mut collected: Vec<NativeInitializer<I>> = Vec::new();
    let mut i: usize = 0;
    assert(initializer_views(collected@) =~= all_contributed(views, 0));
    while i < bindings.len()
        invariant
            i <= bindings@.len(),
            views == binding_views(bindings@),
            alive@.len() == bindings@.len(),
            forall|j: int| 0 <= j < bindings@.len() ==> #[trigger] alive@[j] == live(views, j),
            initializer_views(collected@) == all_contributed(views, i as nat),
        decreases bindings@.len() - i,
    {
        let ghost before = collected@;
        assert(views[i as int] == bindings@[i as int]@);
        match &bindings[i] {
            LibraryBinding::Host(_) => {
                assert(initializer_views(collected@) =~= all_contributed(views, (i + 1) as nat));
            }
            LibraryBinding::Native(module) => {
                if alive[i] {
                    let own = module.initializers();
                    let mut k: usize = 0;
                    assert(initializer_views(collected@) =~= initializer_views(before)
                        + initializer_views(own@).take(0));
                    while k < own.len()
                        invariant
                            k <= own@.len(),
                            initializer_views(collected@) == initializer_views(before)
                                + initializer_views(own@).take(k as int),
                        decreases own@.len() - k,
                    {
                        let ghost previous = collected@;
                        let initializer = own[k].clone();
                        collected.push(initializer);
                        assert(initializer_views(collected@) =~= initializer_views(previous).push(
                            initializer@,
                        ));
                        assert(initializer_views(own@)[k as int] == initializer@);
                        assert(initializer_views(collected@) =~= initializer_views(before)
                            + initializer_views(own@).take(k + 1));
                        k += 1;
                    }
                    assert(initializer_views(own@).take(k as int) =~= module@.initializers);
                }
                assert(initializer_views(collected@) =~= all_contributed(views, (i + 1) as nat));
            }
            LibraryBinding::Initializer(initializer) => {
                let copy = initializer.clone();
                collected.push(copy);
                assert(initializer_views(collected@) =~= initializer_views(before).push(copy@));
                assert(initializer_views(collected@) =~= all_contributed(views, (i + 1) as nat));
            }
        }
        i += 1;
    }
    collected
}

/// Drops every initializer that a later one of the same name replaces.
fn drop_replaced<I>(initializers: Vec<NativeInitializer<I>>) -> (r: Vec<NativeInitializer<I>>)
    ensures
        initializer_views(r@) == keep_last(initializer_views(initializers@)),
{
    let ghost views = initializer_views(initializers@);
    let mut pending = initializers;
    let mut seen: NameMap<bool> = NameMap::new();
    let mut kept: Vec<NativeInitializer<I>> = Vec::new();
    assert(initializer_views(kept@).reverse() =~= keep_last(views.skip(views.len() as int)));
    while pending.len() > 0
        invariant
            pending@.len() <= views.len(),
            forall|i: int| 0 <= i < pending@.len() ==> (#[trigger] pending@[i])@ == views[i],
            forall|name: Seq<char>| #[trigger]
                seen@.dom().contains(name) <==> has_name(views.skip(pending@.len() as int), name),
            initializer_views(kept@).reverse() == keep_last(views.skip(pending@.len() as int)),
        decreases pending@.len(),
    {
        let ghost rest = views.skip(pending@.len() as int);
        let ghost before = kept@;
        let ghost seen_before = seen@;
        match pending.pop() {
            Some(initializer) => {
                let ghost suffix = views.skip(pending@.len() as int);
                proof {
                    assert(suffix.drop_first() =~= rest);
                    assert(suffix.first() == initializer@);
                }
                let replaced = seen.contains(initializer.name());
                if !replaced {
                    seen.insert(initializer.name().to_owned(), true);
                    kept.push(initializer);
                    proof {
                        assert(initializer_views(kept@) =~= initializer_views(before).push(
                            initializer@,
                        ));
                        assert(initializer_views(kept@).reverse() =~= seq![initializer@]
                            + initializer_views(before).reverse());
                    }
                }
                proof {
                    assert forall|name: Seq<char>| #[trigger]
                        seen@.dom().contains(name) <==> has_name(suffix, name) by {
                        assert(seen_before.dom().contains(name) <==> has_name(rest, name));
                        if has_name(rest, name) {
                            let i = choose|i: int|
                                0 <= i < rest.len() && (#[trigger] rest[i]).0 == name;
                            assert(suffix[i + 1] == rest[i]);
                        }
                        if has_name(suffix, name) && name != initializer@.0 {
                            let i = choose|i: int|
                                0 <= i < suffix.len() && (#[trigger] suffix[i]).0 == name;
                            assert(rest[i - 1] == suffix[i]);
                        }
                        if name == initializer@.0 {
                            assert(suffix[0].0 == name);
                        }
                    }
                }
            }
            None => {}
        }
    }
    assert(views.skip(0) =~= views);
    let ghost last = kept@;
    reverse(&mut kept);
    assert(initializer_views(kept@) =~= initializer_views(last).reverse());
    kept
}

/// The registry of one guest.
pub struct GuestRegistry<H, D, I, N> {
    context: usize,
    specifiers: NameMap<String>,
    modules: NameMap<ModuleRegistration<H, D, I>>,
    staged: NameMap<N>,
}

impl<H, D, I, N> View for GuestRegistry<H, D, I, N> {
    type V = GuestView<H, D, I, N>;

    closed spec fn view(&self) -> GuestView<H, D, I, N> {
        GuestView {
            context: self.context,
            specifiers: text_values(self.specifiers@),
            modules: module_values(self.modules@),
            staged: self.staged@,
        }
    }
}

impl<H: HostModule, D, I, N> GuestRegistry<H, D, I, N> {
    /// Builds the registry of a guest from its bindings and lists the initializers that the guest
    /// runs. The last binding that provides a specifier wins it. A binding that wins at least one
    /// specifier has a private route.
    pub fn new(context: usize, guest: u64, bindings: &Vec<LibraryBinding<H, D, I>>) -> (r: (
        Self,
        Vec<NativeInitializer<I>>,
    ))
        ensures
            r.0@ == fresh_guest::<H, D, I, N>(context, guest, binding_views(bindings@)),
            initializer_views(r.1@) == initializers_of(binding_views(bindings@)),
    {
        let ghost views = binding_views(bindings@);
        let winners = find_winners(bindings);
        let mut specifiers: NameMap<String> = NameMap::new();
        let mut modules: NameMap<ModuleRegistration<H, D, I>> = NameMap::new();
        let mut alive: Vec<bool> = Vec::new();
        let mut i: usize = 0;
        proof {
            assert forall|specifier: Seq<char>| #[trigger]
                lookup(text_values(specifiers@), specifier) == route_upto(
                    guest,
                    views,
                    0,
                    specifier,
                ) by {
                lemma_winner_provides(views, specifier);
            }
        }
        while i < bindings.len()
            invariant
                i <= bindings@.len(),
                views == binding_views(bindings@),
                holds_winners(winners@, views),
                specifiers_upto(text_values(specifiers@), guest, views, i as int),
                modules_upto(module_values(modules@), guest, views, i as int),
                alive@.len() == i,
                forall|j: int| 0 <= j < i ==> #[trigger] alive@[j] == live(views, j),
            decreases bindings@.len() - i,
        {
            let path = route_text(guest, i);
            let reached = claim_all(&winners, &mut specifiers, bindings, i, guest, &path);
            let ghost before = module_values(modules@);
            if reached {
                proof {
                    let specifier = choose|specifier: Seq<char>| #[trigger]
                        winner(views, specifier) == Some(i as int);
                    lemma_winner_provides(views, specifier);
                }
                match &bindings[i] {
                    LibraryBinding::Host(module) => {
                        let registration = ModuleRegistration::Host(module.clone());
                        modules.insert(path, registration);
                        assert(module_values(modules@) =~= before.insert(path@, views[i as int]));
                    }
                    LibraryBinding::Native(module) => {
                        let registration = ModuleRegistration::Native(module.clone());
                        modules.insert(path, registration);
                        assert(module_values(modules@) =~= before.insert(path@, views[i as int]));
                    }
                    LibraryBinding::Initializer(_) => {
                        assert(false);
                    }
                }
            }
            proof {
                let after = module_values(modules@);
                assert forall|path: Seq<char>| #[trigger] after.dom().contains(path) implies exists|
                    j: int,
                | j < i + 1 && #[trigger] routes_to(guest, views, path, j) by {
                    if before.dom().contains(path) {
                        let j = choose|j: int|
                            j < i && #[trigger] routes_to(guest, views, path, j);
                        assert(routes_to(guest, views, path, j));
                    } else {
                        assert(routes_to(guest, views, path, i as int));
                    }
                }
                assert forall|j: int| 0 <= j < i + 1 && #[trigger] live(views, j) implies after.dom().contains(
                    route(guest, j),
                ) && after[route(guest, j)] == views[j] by {
                    if j < i && route(guest, j) == route(guest, i as int) {
                        law_routes_are_private(guest, j, guest, i as int);
                    }
                }
            }
            alive.push(reached);
            i += 1;
        }
        let initializers = drop_replaced(collect_initializers(bindings, &alive));
        let registry = GuestRegistry { context, specifiers, modules, staged: NameMap::new() };
        proof {
            let names = text_values(specifiers@);
            assert forall|specifier: Seq<char>| #[trigger]
                names.dom().contains(specifier) <==> specifiers_of(
                    guest,
                    views,
                ).dom().contains(specifier) by {
                lemma_winner_provides(views, specifier);
                assert(lookup(names, specifier) == route_upto(guest, views, i as int, specifier));
            }
            assert forall|specifier: Seq<char>| #[trigger] names.dom().contains(specifier) implies names[specifier]
                == specifiers_of(guest, views)[specifier] by {
                lemma_winner_provides(views, specifier);
                assert(lookup(names, specifier) == route_upto(guest, views, i as int, specifier));
            }
            assert(names =~= specifiers_of(guest, views));
            let paths = module_values(modules@);
            let wanted = modules_of(guest, views);
            assert forall|path: Seq<char>| #[trigger]
                paths.dom().contains(path) <==> wanted.dom().contains(path) by {
                if wanted.dom().contains(path) {
                    let j = choose|j: int| #[trigger] routes_to(guest, views, path, j);
                    assert(live(views, j));
                }
            }
            assert forall|path: Seq<char>| #[trigger] paths.dom().contains(path) implies paths[path]
                == wanted[path] by {
                let j = choose|j: int| #[trigger] routes_to(guest, views, path, j);
                assert(routes_to(guest, views, path, j));
                assert(live(views, j));
            }
            assert(paths =~= wanted);
            assert(registry@ =~= fresh_guest::<H, D, I, N>(context, guest, views));
        }
        (registry, initializers)
    }

    /// Returns the context of the guest.
    pub fn context(&self) -> (r: usize)
        ensures
            r == self@.context,
    {
        self.context
    }

    /// Returns the route of a specifier.
    pub fn resolve(&self, name: &str) -> (r: Option<String>)
        ensures
            text_of(r) == lookup(self@.specifiers, name@),
    {
        match self.specifiers.get(name) {
            Some(path) => Some(path.clone()),
            None => None,
        }
    }

    /// Returns the module of a route.
    pub fn module(&self, path: &str) -> (r: Option<ModuleRegistration<H, D, I>>)
        ensures
            module_of(r) == lookup(self@.modules, path@),
    {
        match self.modules.get(path) {
            Some(module) => Some(module.clone()),
            None => None,
        }
    }

    /// Returns the route of a specifier that leads to a host module.
    pub fn host_route(&self, name: &str) -> (r: Option<String>)
        ensures
            text_of(r) == self@.host_route_of(name@),
    {
        match self.specifiers.get(name) {
            Some(path) => match self.modules.get(path.as_str()) {
                Some(ModuleRegistration::Host(_)) => Some(path.clone()),
                Some(ModuleRegistration::Native(_)) => None,
                None => None,
            },
            None => None,
        }
    }

    /// Returns the host module of a route.
    pub fn host_module(&self, path: &str) -> (r: Option<Arc<H>>)
        ensures
            match r {
                Some(module) => self@.host_module_of(path@) == Some(*module),
                None => self@.host_module_of(path@) is None,
            },
    {
        match self.modules.get(path) {
            Some(ModuleRegistration::Host(module)) => Some(module.clone()),
            Some(ModuleRegistration::Native(_)) => None,
            None => None,
        }
    }

    /// Stages exports under a route, in place of what was staged there.
    pub fn stage(&mut self, path: String, namespace: N)
        ensures
            final(self)@ == (GuestView {
                staged: old(self)@.staged.insert(path@, namespace),
                ..old(self)@
            }),
    {
        self.staged.insert(path, namespace);
    }

    /// Takes what is staged under a route.
    pub fn take_staged(&mut self, path: &str) -> (r: Option<N>)
        ensures
            r == lookup(old(self)@.staged, path@),
            final(self)@ == (GuestView { staged: old(self)@.staged.remove(path@), ..old(self)@ }),
    {
        self.staged.remove(path)
    }
}

/// The text of an optional string.
pub open spec fn text_of(text: Option<String>) -> Option<Seq<char>> {
    match text {
        Some(text) => Some(text@),
        None => None,
    }
}

/// What an optional module stands for.
pub open spec fn module_of<H, D, I>(module: Option<ModuleRegistration<H, D, I>>) -> Option<
    BindingView<H, D, I>,
> {
    match module {
        Some(module) => Some(module@),
        None => None,
    }
}

impl<H, D, I, N> GuestView<H, D, I, N> {
    /// The route of a specifier that leads to a host module.
    pub open spec fn host_route_of(self, name: Seq<char>) -> Option<Seq<char>> {
        match lookup(self.specifiers, name) {
            Some(path) => match lookup(self.modules, path) {
                Some(BindingView::Host(_)) => Some(path),
                _ => None,
            },
            None => None,
        }
    }

    /// The host module of a route.
    pub open spec fn host_module_of(self, path: Seq<char>) -> Option<H> {
        match lookup(self.modules, path) {
            Some(BindingView::Host(module)) => Some(module),
            _ => None,
        }
    }
}

} // verus!
