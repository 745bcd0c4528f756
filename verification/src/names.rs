//! A map from names to values that keeps its entries in a vector.

use vstd::prelude::*;

use crate::text::same_text;

verus! {

/// A map from names to values. Each name occurs once.
pub struct NameMap<V> {
    entries: Vec<(String, V)>,
}

/// The position of a name among the entries.
spec fn position<V>(entries: Seq<(String, V)>, name: Seq<char>, i: int) -> bool {
    0 <= i < entries.len() && entries[i].0@ == name
}

/// Whether no name occurs twice.
spec fn distinct<V>(entries: Seq<(String, V)>) -> bool {
    forall|i: int, j: int|
        #![trigger entries[i], entries[j]]
        0 <= i < entries.len() && 0 <= j < entries.len() && entries[i].0@ == entries[j].0@ ==> i
            == j
}

/// The map that the entries stand for.
spec fn as_map<V>(entries: Seq<(String, V)>) -> Map<Seq<char>, V> {
    Map::new(
        |name: Seq<char>| exists|i: int| #[trigger] position(entries, name, i),
        |name: Seq<char>| entries[choose|i: int| #[trigger] position(entries, name, i)].1,
    )
}

proof fn lemma_entry<V>(entries: Seq<(String, V)>, i: int)
    requires
        distinct(entries),
        0 <= i < entries.len(),
    ensures
        as_map(entries).dom().contains(entries[i].0@),
        as_map(entries)[entries[i].0@] == entries[i].1,
{
    let name = entries[i].0@;
    assert(position(entries, name, i));
    let j = choose|j: int| #[trigger] position(entries, name, j);
    assert(position(entries, name, j));
    assert(entries[i].0@ == entries[j].0@);
}

proof fn lemma_absent<V>(entries: Seq<(String, V)>, name: Seq<char>)
    requires
        forall|i: int| 0 <= i < entries.len() ==> (#[trigger] entries[i]).0@ != name,
    ensures
        !as_map(entries).dom().contains(name),
{
    if as_map(entries).dom().contains(name) {
        let i = choose|i: int| #[trigger] position(entries, name, i);
        assert(entries[i].0@ == name);
    }
}

proof fn lemma_pushed<V>(entries: Seq<(String, V)>, entry: (String, V))
    requires
        distinct(entries),
        !as_map(entries).dom().contains(entry.0@),
    ensures
        distinct(entries.push(entry)),
        as_map(entries.push(entry)) == as_map(entries).insert(entry.0@, entry.1),
{
    let pushed = entries.push(entry);
    assert forall|i: int| 0 <= i < entries.len() implies (#[trigger] entries[i]).0@ != entry.0@ by {
        lemma_entry(entries, i);
    }
    assert(distinct(pushed)) by {
        assert forall|i: int, j: int|
            #![trigger pushed[i], pushed[j]]
            0 <= i < pushed.len() && 0 <= j < pushed.len() && pushed[i].0@
                == pushed[j].0@ implies i == j by {
            if i < entries.len() && j < entries.len() {
                assert(entries[i].0@ == entries[j].0@);
            } else if i < entries.len() {
                assert(entries[i].0@ != entry.0@);
            } else if j < entries.len() {
                assert(entries[j].0@ != entry.0@);
            }
        }
    }
    let left = as_map(pushed);
    let right = as_map(entries).insert(entry.0@, entry.1);
    assert forall|name: Seq<char>| left.dom().contains(name) <==> #[trigger] right.dom().contains(
        name,
    ) by {
        if left.dom().contains(name) {
            let i = choose|i: int| #[trigger] position(pushed, name, i);
            if i < entries.len() {
                assert(position(entries, name, i));
            }
        }
        if right.dom().contains(name) {
            if name == entry.0@ {
                assert(position(pushed, name, entries.len() as int));
            } else {
                let i = choose|i: int| #[trigger] position(entries, name, i);
                assert(position(pushed, name, i));
            }
        }
    }
    assert forall|name: Seq<char>| #[trigger] left.dom().contains(name) implies left[name]
        == right[name] by {
        let i = choose|i: int| #[trigger] position(pushed, name, i);
        lemma_entry(pushed, i);
        if i < entries.len() {
            assert(entries[i] == pushed[i]);
            lemma_entry(entries, i);
        }
    }
    assert(left =~= right);
}

proof fn lemma_removed<V>(entries: Seq<(String, V)>, i: int)
    requires
        distinct(entries),
        0 <= i < entries.len(),
    ensures
        distinct(entries.remove(i)),
        as_map(entries.remove(i)) == as_map(entries).remove(entries[i].0@),
{
    let rest = entries.remove(i);
    let name = entries[i].0@;
    assert forall|j: int| 0 <= j < rest.len() implies #[trigger] rest[j] == entries[if j < i {
        j
    } else {
        j + 1
    }] by {}
    assert forall|j: int, k: int|
        #![trigger rest[j], rest[k]]
        0 <= j < rest.len() && 0 <= k < rest.len() && rest[j].0@ == rest[k].0@ implies j == k by {
        let a = if j < i {
            j
        } else {
            j + 1
        };
        let b = if k < i {
            k
        } else {
            k + 1
        };
        assert(entries[a].0@ == entries[b].0@);
    }
    let left = as_map(rest);
    let right = as_map(entries).remove(name);
    assert forall|other: Seq<char>|
        left.dom().contains(other) <==> #[trigger] right.dom().contains(other) by {
        if left.dom().contains(other) {
            let j = choose|j: int| #[trigger] position(rest, other, j);
            let a = if j < i {
                j
            } else {
                j + 1
            };
            assert(rest[j] == entries[a]);
            assert(position(entries, other, a));
            assert(entries[a].0@ != entries[i].0@ || a == i);
        }
        if right.dom().contains(other) {
            let a = choose|a: int| #[trigger] position(entries, other, a);
            let j = if a < i {
                a
            } else {
                a - 1
            };
            assert(rest[j] == entries[a]);
            assert(position(rest, other, j));
        }
    }
    assert forall|other: Seq<char>| #[trigger] left.dom().contains(other) implies left[other]
        == right[other] by {
        let j = choose|j: int| #[trigger] position(rest, other, j);
        lemma_entry(rest, j);
        let a = if j < i {
            j
        } else {
            j + 1
        };
        assert(rest[j] == entries[a]);
        lemma_entry(entries, a);
    }
    assert(left =~= right);
}

impl<V> View for NameMap<V> {
    type V = Map<Seq<char>, V>;

    closed spec fn view(&self) -> Map<Seq<char>, V> {
        as_map(self.entries@)
    }
}

impl<V> NameMap<V> {
    #[verifier::type_invariant]
    spec fn well_formed(&self) -> bool {
        distinct(self.entries@)
    }

    /// Creates an empty map.
    pub fn new() -> (r: Self)
        ensures
            r@ == Map::<Seq<char>, V>::empty(),
    {
        let r = NameMap { entries: Vec::new() };
        proof {
            assert forall|name: Seq<char>| !(#[trigger] r@.dom().contains(name)) by {
                lemma_absent(r.entries@, name);
            }
            assert(r@ =~= Map::<Seq<char>, V>::empty());
        }
        r
    }

    fn find(&self, name: &str) -> (r: Option<usize>)
        ensures
            r matches Some(i) ==> i < self.entries@.len() && self.entries@[i as int].0@ == name@
                && self@.dom().contains(name@) && self@[name@] == self.entries@[i as int].1,
            r is None ==> !self@.dom().contains(name@),
    {
        proof {
            use_type_invariant(self);
        }
        let mut i: usize = 0;
        while i < self.entries.len()
            invariant
                i <= self.entries@.len(),
                distinct(self.entries@),
                forall|j: int| 0 <= j < i ==> (#[trigger] self.entries@[j]).0@ != name@,
            decreases self.entries@.len() - i,
        {
            if same_text(self.entries[i].0.as_str(), name) {
                proof {
                    lemma_entry(self.entries@, i as int);
                }
                return Some(i);
            }
            i += 1;
        }
        proof {
            lemma_absent(self.entries@, name@);
        }
        None
    }

    /// Returns whether a name has a value.
    pub fn contains(&self, name: &str) -> (r: bool)
        ensures
            r == self@.dom().contains(name@),
    {
        self.find(name).is_some()
    }

    /// Returns the value of a name.
    pub fn get(&self, name: &str) -> (r: Option<&V>)
        ensures
            r == (if self@.dom().contains(name@) {
                Some(&self@[name@])
            } else {
                None::<&V>
            }),
    {
        match self.find(name) {
            Some(i) => Some(&self.entries[i].1),
            None => None,
        }
    }

    /// Removes a name and returns its value.
    pub fn remove(&mut self, name: &str) -> (r: Option<V>)
        ensures
            final(self)@ == old(self)@.remove(name@),
            r == (if old(self)@.dom().contains(name@) {
                Some(old(self)@[name@])
            } else {
                None::<V>
            }),
    {
        proof {
            use_type_invariant(&*self);
        }
        match self.find(name) {
            Some(i) => {
                let mut entries: Vec<(String, V)> = Vec::new();
                std::mem::swap(&mut entries, &mut self.entries);
                proof {
                    lemma_removed(entries@, i as int);
                }
                let (_, value) = entries.remove(i);
                self.entries = entries;
                Some(value)
            }
            None => {
                assert(self@.remove(name@) =~= self@);
                None
            }
        }
    }

    /// Gives a name a value and returns the value that it had.
    pub fn insert(&mut self, name: String, value: V) -> (r: Option<V>)
        ensures
            final(self)@ == old(self)@.insert(name@, value),
            r == (if old(self)@.dom().contains(name@) {
                Some(old(self)@[name@])
            } else {
                None::<V>
            }),
    {
        let replaced = self.remove(name.as_str());
        proof {
            use_type_invariant(&*self);
        }
        let mut entries: Vec<(String, V)> = Vec::new();
        std::mem::swap(&mut entries, &mut self.entries);
        proof {
            lemma_pushed(entries@, (name, value));
        }
        entries.push((name, value));
        self.entries = entries;
        assert(old(self)@.remove(name@).insert(name@, value) =~= old(self)@.insert(name@, value));
        replaced
    }
}

} // verus!
