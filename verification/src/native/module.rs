//! Native guest modules.

use std::sync::Arc;
use vstd::prelude::*;

use crate::native::initializer::NativeInitializer;
use crate::text::same_text;

verus! {

/// A reusable native guest module. Copies share one definition.
pub struct NativeModule<D, I> {
    name: String,
    aliases: Vec<String>,
    definition: Arc<D>,
    initializers: Vec<NativeInitializer<I>>,
}

/// What a native module stands for.
#[verifier::ext_equal]
pub struct NativeModuleView<D, I> {
    pub name: Seq<char>,
    pub aliases: Seq<Seq<char>>,
    pub definition: D,
    pub initializers: Seq<(Seq<char>, I)>,
}

/// The texts of a list of names.
pub open spec fn texts(names: Seq<String>) -> Seq<Seq<char>> {
    names.map_values(|name: String| name@)
}

/// The names and callbacks of a list of initializers.
pub open spec fn initializer_views<I>(initializers: Seq<NativeInitializer<I>>) -> Seq<
    (Seq<char>, I),
> {
    initializers.map_values(|initializer: NativeInitializer<I>| initializer@)
}

impl<D, I> NativeModuleView<D, I> {
    /// Whether a specifier names the module, canonically or by an alias.
    pub open spec fn answers_to(self, specifier: Seq<char>) -> bool {
        self.name == specifier || self.aliases.contains(specifier)
    }

    /// The module with one more alias, unless it already answers to it.
    pub open spec fn with_alias(self, alias: Seq<char>) -> Self {
        if self.answers_to(alias) {
            self
        } else {
            NativeModuleView { aliases: self.aliases.push(alias), ..self }
        }
    }

    /// Whether no specifier is listed twice.
    pub open spec fn lists_each_specifier_once(self) -> bool {
        self.aliases.no_duplicates() && !self.aliases.contains(self.name)
    }
}

impl<D, I> View for NativeModule<D, I> {
    type V = NativeModuleView<D, I>;

    closed spec fn view(&self) -> NativeModuleView<D, I> {
        NativeModuleView {
            name: self.name@,
            aliases: texts(self.aliases@),
            definition: *self.definition,
            initializers: initializer_views(self.initializers@),
        }
    }
}

impl<D, I> NativeModule<D, I> {
    /// Creates a native guest module.
    pub fn new(name: &str, definition: D) -> (r: Self)
        ensures
            r@ == (NativeModuleView {
                name: name@,
                aliases: Seq::<Seq<char>>::empty(),
                definition,
                initializers: Seq::<(Seq<char>, I)>::empty(),
            }),
    {
        let r = NativeModule {
            name: name.to_owned(),
            aliases: Vec::new(),
            definition: Arc::new(definition),
            initializers: Vec::new(),
        };
        proof {
            assert(r@.aliases =~= Seq::<Seq<char>>::empty());
            assert(r@.initializers =~= Seq::<(Seq<char>, I)>::empty());
        }
        r
    }

    /// Adds a module specifier alias, unless the module already answers to it.
    pub fn alias(self, alias: &str) -> (r: Self)
        ensures
            r@ == self@.with_alias(alias@),
    {
        let NativeModule { name, aliases, definition, initializers } = self;
        let mut aliases = aliases;
        let mut known = same_text(name.as_str(), alias);
        let mut i: usize = 0;
        while i < aliases.len()
            invariant
                i <= aliases@.len(),
                known <==> name@ == alias@ || exists|j: int| 0 <= j < i && #[trigger] texts(aliases@)[j] == alias@,
            decreases aliases@.len() - i,
        {
            assert(texts(aliases@)[i as int] == aliases@[i as int]@);
            if same_text(aliases[i].as_str(), alias) {
                known = true;
            }
            i += 1;
        }
        proof {
            assert(known == self@.answers_to(alias@)) by {
                if self@.aliases.contains(alias@) {
                    let j = self@.aliases.index_of(alias@);
                    assert(texts(aliases@)[j] == alias@);
                }
            }
        }
        if !known {
            proof {
                assert(texts(aliases@).push(alias@).len() == aliases@.len() + 1);
            }
            let ghost before = aliases@;
            aliases.push(alias.to_owned());
            assert(texts(aliases@) =~= texts(before).push(alias@));
        }
        NativeModule { name, aliases, definition, initializers }
    }

    /// Adds a [`NativeInitializer`](crate::native::NativeInitializer).
    pub fn initialize(self, initializer: NativeInitializer<I>) -> (r: Self)
        ensures
            r@ == (NativeModuleView {
                initializers: self@.initializers.push(initializer@),
                ..self@
            }),
    {
        let NativeModule { name, aliases, definition, initializers } = self;
        let mut initializers = initializers;
        let ghost before = initializers@;
        initializers.push(initializer);
        assert(initializer_views(initializers@) =~= initializer_views(before).push(initializer@));
        NativeModule { name, aliases, definition, initializers }
    }

    /// Returns the canonical module name.
    pub fn name(&self) -> (r: &str)
        ensures
            r@ == self@.name,
    {
        self.name.as_str()
    }

    /// Returns the aliases in the order in which they were added.
    pub fn aliases(&self) -> (r: &Vec<String>)
        ensures
            texts(r@) == self@.aliases,
    {
        &self.aliases
    }

    /// Returns the initializers in the order in which they were added.
    pub fn initializers(&self) -> (r: &Vec<NativeInitializer<I>>)
        ensures
            initializer_views(r@) == self@.initializers,
    {
        &self.initializers
    }

    /// Returns the definition.
    pub fn definition(&self) -> (r: &D)
        ensures
            *r == self@.definition,
    {
        &self.definition
    }

    /// Declares the module under a route and returns what the definition returns.
    pub fn declare<C, M, E>(&self, context: C, route: Vec<u8>) -> (r: Result<M, E>) where
        D: Fn(C, Vec<u8>) -> Result<M, E>,

        requires
            call_requires(self@.definition, (context, route)),
        ensures
            call_ensures(self@.definition, (context, route), r),
    {
        (self.definition)(context, route)
    }
}

fn copy_names(names: &Vec<String>) -> (r: Vec<String>)
    ensures
        texts(r@) == texts(names@),
{
    let mut copy: Vec<String> = Vec::new();
    let mut i: usize = 0;
    while i < names.len()
        invariant
            i <= names@.len(),
            texts(copy@) == texts(names@).take(i as int),
        decreases names@.len() - i,
    {
        let ghost before = copy@;
        copy.push(names[i].clone());
        assert(texts(copy@) =~= texts(before).push(names@[i as int]@));
        assert(texts(names@).take(i + 1) =~= texts(names@).take(i as int).push(
            texts(names@)[i as int],
        ));
        i += 1;
    }
    assert(texts(names@).take(i as int) =~= texts(names@));
    copy
}

fn copy_initializers<I>(initializers: &Vec<NativeInitializer<I>>) -> (r: Vec<NativeInitializer<I>>)
    ensures
        initializer_views(r@) == initializer_views(initializers@),
{
    let mut copy: Vec<NativeInitializer<I>> = Vec::new();
    let mut i: usize = 0;
    while i < initializers.len()
        invariant
            i <= initializers@.len(),
            initializer_views(copy@) == initializer_views(initializers@).take(i as int),
        decreases initializers@.len() - i,
    {
        let ghost before = copy@;
        let initializer = initializers[i].clone();
        copy.push(initializer);
        assert(initializer_views(copy@) =~= initializer_views(before).push(initializer@));
        assert(initializer_views(initializers@).take(i + 1) =~= initializer_views(
            initializers@,
        ).take(i as int).push(initializer_views(initializers@)[i as int]));
        i += 1;
    }
    assert(initializer_views(initializers@).take(i as int) =~= initializer_views(initializers@));
    copy
}

impl<D, I> Clone for NativeModule<D, I> {
    fn clone(&self) -> (r: Self)
        ensures
            r@ == self@,
    {
        NativeModule {
            name: self.name.clone(),
            aliases: copy_names(&self.aliases),
            definition: self.definition.clone(),
            initializers: copy_initializers(&self.initializers),
        }
    }
}

/// A module answers to an alias that it was given, beside what it answered to before, and giving it
/// the same alias again changes nothing.
pub proof fn law_alias_adds_one_specifier<D, I>(
    module: NativeModuleView<D, I>,
    alias: Seq<char>,
    specifier: Seq<char>,
)
    ensures
        module.with_alias(alias).answers_to(specifier) <==> module.answers_to(specifier)
            || specifier == alias,
        module.with_alias(alias).with_alias(alias) == module.with_alias(alias),
{
    let added = module.aliases.push(alias);
    assert(added[module.aliases.len() as int] == alias);
    if module.aliases.contains(specifier) {
        let i = module.aliases.index_of(specifier);
        assert(added[i] == specifier);
    }
    if added.contains(specifier) {
        let i = added.index_of(specifier);
        if i < module.aliases.len() {
            assert(module.aliases[i] == specifier);
        }
    }
}

/// Adding aliases never lists a specifier twice.
pub proof fn law_aliases_stay_distinct<D, I>(module: NativeModuleView<D, I>, alias: Seq<char>)
    requires
        module.lists_each_specifier_once(),
    ensures
        module.with_alias(alias).lists_each_specifier_once(),
{
    if !module.answers_to(alias) {
        let added = module.aliases.push(alias);
        assert forall|i: int, j: int|
            0 <= i < added.len() && 0 <= j < added.len() && i != j implies added[i] != added[j] by {
            if i < module.aliases.len() && j < module.aliases.len() {
                assert(module.aliases[i] != module.aliases[j]);
            } else if i < module.aliases.len() {
                assert(module.aliases.contains(module.aliases[i]));
            } else {
                assert(module.aliases.contains(module.aliases[j]));
            }
        }
        if added.contains(module.name) {
            let i = added.index_of(module.name);
            assert(module.aliases.contains(module.aliases[i]));
        }
    }
}

} // verus!
