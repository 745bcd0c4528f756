//! Texts and names.

use vstd::prelude::*;

use crate::names::NameMap;
use crate::sequences::reverse;
use crate::text::{decimal, decimal_text, digit, joined, same_text};

verus! {

/// The number that a text of digits denotes.
pub open spec fn denoted(text: Seq<char>) -> int
    decreases text.len(),
{
    if text.len() == 0 {
        0
    } else {
        denoted(text.drop_last()) * 10 + (text.last() as int - '0' as int)
    }
}

/// Whether a character is a decimal digit.
pub open spec fn is_digit(c: char) -> bool {
    '0' <= c && c <= '9'
}

proof fn lemma_numeral(n: nat)
    ensures
        decimal(n).len() >= 1,
        denoted(decimal(n)) == n,
        forall|i: int| 0 <= i < decimal(n).len() ==> is_digit(#[trigger] decimal(n)[i]),
        decimal(n).len() > 1 ==> decimal(n)[0] != '0',
        n > 0 ==> decimal(n)[0] != '0',
    decreases n,
{
    let text = decimal(n);
    if n < 10 {
        assert(text.drop_last() =~= Seq::<char>::empty());
        assert(denoted(text.drop_last()) == 0);
        assert(text.last() == digit(n));
        assert(text.last() as int - '0' as int == n);
    } else {
        lemma_numeral(n / 10);
        assert(text.drop_last() =~= decimal(n / 10));
        assert(text.last() == digit(n % 10));
        assert(text.last() as int - '0' as int == n % 10);
        assert(text[0] == decimal(n / 10)[0]);
        assert forall|i: int| 0 <= i < text.len() implies is_digit(#[trigger] text[i]) by {
            if i < decimal(n / 10).len() {
                assert(text[i] == decimal(n / 10)[i]);
            }
        }
    }
}

/// A number that is written in decimal is denoted by its digits, with no zero in front of them.
pub proof fn law_numerals_denote_their_number(n: u64, text: String)
    requires
        call_ensures(decimal_text, (n,), text),
    ensures
        denoted(text@) == n,
        text@.len() > 0,
        forall|i: int| 0 <= i < text@.len() ==> is_digit(#[trigger] text@[i]),
        text@[0] == '0' ==> text@.len() == 1,
{
    lemma_numeral(n as nat);
}

/// Two texts are the same where they have the same characters at the same places.
pub proof fn law_same_texts_agree_everywhere(left: &str, right: &str, same: bool)
    requires
        call_ensures(same_text, (left, right), same),
    ensures
        same <==> left@.len() == right@.len() && forall|i: int|
            0 <= i < left@.len() ==> #[trigger] left@[i] == right@[i],
{
    if left@.len() == right@.len() && (forall|i: int|
        0 <= i < left@.len() ==> #[trigger] left@[i] == right@[i]) {
        assert(left@ =~= right@);
    }
}

/// Joined texts stand one behind the other.
pub proof fn law_joined_texts_stand_in_order(left: &str, right: &str, text: String, i: int)
    requires
        call_ensures(joined, (left, right), text),
        0 <= i < text@.len(),
    ensures
        text@.len() == left@.len() + right@.len(),
        i < left@.len() ==> text@[i] == left@[i],
        i >= left@.len() ==> text@[i] == right@[i - left@.len()],
{
}

/// A new map has no names.
pub proof fn law_new_maps_are_empty<V>(map: NameMap<V>, name: &str, known: bool, found: Option<&V>)
    requires
        call_ensures(NameMap::<V>::new, (), map),
        call_ensures(NameMap::<V>::contains, (&map, name), known),
        call_ensures(NameMap::<V>::get, (&map, name), found),
    ensures
        !known,
        found is None,
{
}

/// What was put under a name is found under it until it is replaced; what stands under another name
/// stays. Inserting hands back what stood there.
pub proof fn law_inserted_values_are_found<V>(
    map: &mut NameMap<V>,
    name: String,
    value: V,
    replaced: Option<V>,
    asked: &str,
    before: Option<&V>,
    after: Option<&V>,
    known: bool,
)
    requires
        call_ensures(NameMap::<V>::insert, (map, name, value), replaced),
        call_ensures(NameMap::<V>::get, (&*old(map), asked), before),
        call_ensures(NameMap::<V>::get, (&*final(map), asked), after),
        call_ensures(NameMap::<V>::contains, (&*final(map), asked), known),
    ensures
        known <==> after is Some,
        asked@ == name@ ==> after == Some(&value) && (replaced is Some <==> before is Some) && (
        before matches Some(own) ==> replaced == Some(*own)),
        asked@ != name@ ==> after == before,
{
}

/// A name that was removed is gone, and what stood under it is handed back; what stands under
/// another name stays.
pub proof fn law_removed_values_are_gone<V>(
    map: &mut NameMap<V>,
    name: &str,
    removed: Option<V>,
    asked: &str,
    before: Option<&V>,
    after: Option<&V>,
    known: bool,
)
    requires
        call_ensures(NameMap::<V>::remove, (map, name), removed),
        call_ensures(NameMap::<V>::get, (&*old(map), asked), before),
        call_ensures(NameMap::<V>::get, (&*final(map), asked), after),
        call_ensures(NameMap::<V>::contains, (&*final(map), asked), known),
    ensures
        known <==> after is Some,
        asked@ == name@ ==> after is None && (removed is Some <==> before is Some) && (
        before matches Some(own) ==> removed == Some(*own)),
        asked@ != name@ ==> after == before,
{
}

/// Reversing puts the last value first.
pub proof fn law_reversed_values_stand_the_other_way<T>(values: &mut Vec<T>, i: int)
    requires
        call_ensures(reverse::<T>, (values,), ()),
        0 <= i < old(values)@.len(),
    ensures
        final(values)@.len() == old(values)@.len(),
        final(values)@[i] == old(values)@[old(values)@.len() - 1 - i],
{
}

} // verus!
