//! The bindings that specifiers lead to and the initializers that guests run.

use vstd::prelude::*;

use crate::host::module::HostModule;
use crate::registry::bindings::BindingView;
use crate::text::{
    decimal, law_decimal_is_injective, lemma_decimal_has_no_separator,
    lemma_split_at_last_separator,
};

verus! {

/// Whether a binding provides a module under a specifier: a host module under its name, a native
/// module under its name and its aliases, an initializer under none.
pub open spec fn provides<H: HostModule, D, I>(
    binding: BindingView<H, D, I>,
    specifier: Seq<char>,
) -> bool {
    match binding {
        BindingView::Host(module) => module.specifier() == specifier,
        BindingView::Native(module) => module.answers_to(specifier),
        BindingView::Initializer(_) => false,
    }
}

/// The last binding that provides a module under a specifier.
pub open spec fn winner<H: HostModule, D, I>(
    bindings: Seq<BindingView<H, D, I>>,
    specifier: Seq<char>,
) -> Option<int>
    decreases bindings.len(),
{
    if bindings.len() == 0 {
        None
    } else if provides(bindings.last(), specifier) {
        Some(bindings.len() - 1)
    } else {
        winner(bindings.drop_last(), specifier)
    }
}

/// Whether a binding is still reached under at least one specifier.
pub open spec fn live<H: HostModule, D, I>(bindings: Seq<BindingView<H, D, I>>, i: int) -> bool {
    exists|specifier: Seq<char>| #[trigger] winner(bindings, specifier) == Some(i)
}

/// The private route of the binding with an ordinal in a guest.
pub open spec fn route(guest: u64, ordinal: int) -> Seq<char> {
    "guestjs:module:"@ + decimal(guest as nat) + seq![':'] + decimal(ordinal as nat)
}

/// What a binding contributes to the initializers of a guest: a module that is still reached its
/// own, a standalone initializer itself.
pub open spec fn contributed<H: HostModule, D, I>(
    bindings: Seq<BindingView<H, D, I>>,
    i: int,
) -> Seq<(Seq<char>, I)> {
    match bindings[i] {
        BindingView::Host(_) => Seq::empty(),
        BindingView::Native(module) => if live(bindings, i) {
            module.initializers
        } else {
            Seq::empty()
        },
        BindingView::Initializer(initializer) => seq![initializer],
    }
}

/// What the first bindings contribute to the initializers of a guest, in the order of the bindings.
pub open spec fn all_contributed<H: HostModule, D, I>(
    bindings: Seq<BindingView<H, D, I>>,
    count: nat,
) -> Seq<(Seq<char>, I)>
    decreases count,
{
    if count == 0 {
        Seq::empty()
    } else {
        all_contributed(bindings, (count - 1) as nat) + contributed(bindings, count - 1)
    }
}

/// Whether an initializer of a name is among some.
pub open spec fn has_name<I>(initializers: Seq<(Seq<char>, I)>, name: Seq<char>) -> bool {
    exists|i: int| 0 <= i < initializers.len() && (#[trigger] initializers[i]).0 == name
}

/// The initializers without those that a later one of the same name replaces.
pub open spec fn keep_last<I>(initializers: Seq<(Seq<char>, I)>) -> Seq<(Seq<char>, I)>
    decreases initializers.len(),
{
    if initializers.len() == 0 {
        Seq::empty()
    } else {
        let first = initializers.first();
        let rest = initializers.drop_first();
        if has_name(rest, first.0) {
            keep_last(rest)
        } else {
            seq![first] + keep_last(rest)
        }
    }
}

/// The initializers that a guest with some bindings runs, in order.
pub open spec fn initializers_of<H: HostModule, D, I>(bindings: Seq<BindingView<H, D, I>>) -> Seq<
    (Seq<char>, I),
> {
    keep_last(all_contributed(bindings, bindings.len()))
}

/// What the registry of a guest stands for.
#[verifier::ext_equal]
pub struct GuestView<H, D, I, N> {
    pub context: usize,
    pub specifiers: Map<Seq<char>, Seq<char>>,
    pub modules: Map<Seq<char>, BindingView<H, D, I>>,
    pub staged: Map<Seq<char>, N>,
}

/// The specifiers of a guest, each with the route of the last binding that provides it.
pub open spec fn specifiers_of<H: HostModule, D, I>(
    guest: u64,
    bindings: Seq<BindingView<H, D, I>>,
) -> Map<Seq<char>, Seq<char>> {
    Map::new(
        |specifier: Seq<char>| winner(bindings, specifier) is Some,
        |specifier: Seq<char>| route(guest, winner(bindings, specifier).unwrap()),
    )
}

/// Whether a route is that of a live binding.
pub open spec fn routes_to<H: HostModule, D, I>(
    guest: u64,
    bindings: Seq<BindingView<H, D, I>>,
    path: Seq<char>,
    i: int,
) -> bool {
    0 <= i < bindings.len() && live(bindings, i) && path == route(guest, i)
}

/// The modules of a guest, each under the route of its binding.
pub open spec fn modules_of<H: HostModule, D, I>(
    guest: u64,
    bindings: Seq<BindingView<H, D, I>>,
) -> Map<Seq<char>, BindingView<H, D, I>> {
    Map::new(
        |path: Seq<char>| exists|i: int| #[trigger] routes_to(guest, bindings, path, i),
        |path: Seq<char>| bindings[choose|i: int| #[trigger] routes_to(guest, bindings, path, i)],
    )
}

/// The registry of a fresh guest.
pub open spec fn fresh_guest<H: HostModule, D, I, N>(
    context: usize,
    guest: u64,
    bindings: Seq<BindingView<H, D, I>>,
) -> GuestView<H, D, I, N> {
    GuestView {
        context,
        specifiers: specifiers_of(guest, bindings),
        modules: modules_of(guest, bindings),
        staged: Map::empty(),
    }
}

pub proof fn lemma_winner_provides<H: HostModule, D, I>(
    bindings: Seq<BindingView<H, D, I>>,
    specifier: Seq<char>,
)
    ensures
        winner(bindings, specifier) matches Some(i) ==> 0 <= i < bindings.len() && provides(
            bindings[i],
            specifier,
        ) && forall|j: int|
            i < j < bindings.len() ==> !provides(#[trigger] bindings[j], specifier),
        winner(bindings, specifier) is None ==> forall|j: int|
            0 <= j < bindings.len() ==> !provides(#[trigger] bindings[j], specifier),
    decreases bindings.len(),
{
    if bindings.len() > 0 && !provides(bindings.last(), specifier) {
        let front = bindings.drop_last();
        lemma_winner_provides(front, specifier);
        assert forall|j: int| 0 <= j < front.len() implies front[j] == #[trigger] bindings[j] by {}
        if winner(bindings, specifier) is Some {
            let i = winner(bindings, specifier).unwrap();
            assert forall|j: int| i < j < bindings.len() implies !provides(
                #[trigger] bindings[j],
                specifier,
            ) by {
                if j < front.len() {
                    assert(!provides(front[j], specifier));
                }
            }
        } else {
            assert forall|j: int| 0 <= j < bindings.len() implies !provides(
                #[trigger] bindings[j],
                specifier,
            ) by {
                if j < front.len() {
                    assert(!provides(front[j], specifier));
                }
            }
        }
    }
}

/// The routes of different bindings, or of bindings of different guests, differ.
pub proof fn law_routes_are_private(guest: u64, ordinal: int, other: u64, other_ordinal: int)
    requires
        0 <= ordinal,
        0 <= other_ordinal,
        route(guest, ordinal) == route(other, other_ordinal),
    ensures
        guest == other,
        ordinal == other_ordinal,
{
    let prefix = "guestjs:module:"@;
    lemma_decimal_has_no_separator(ordinal as nat);
    lemma_decimal_has_no_separator(other_ordinal as nat);
    lemma_split_at_last_separator(
        prefix + decimal(guest as nat),
        decimal(ordinal as nat),
        prefix + decimal(other as nat),
        decimal(other_ordinal as nat),
    );
    assert((prefix + decimal(guest as nat)).skip(prefix.len() as int) =~= decimal(guest as nat));
    assert((prefix + decimal(other as nat)).skip(prefix.len() as int) =~= decimal(other as nat));
    law_decimal_is_injective(guest as nat, other as nat);
    law_decimal_is_injective(ordinal as nat, other_ordinal as nat);
}

} // verus!
