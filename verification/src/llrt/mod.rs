//! Selective LLRT native-library adapters.

pub mod streams;

use vstd::prelude::*;

use crate::native::initializer::NativeInitializer;
use crate::native::library::{entry_views, EntryView, NativeLibrary};
use crate::native::module::{NativeModule, NativeModuleView};

verus! {

/// A native module of LLRT.
#[derive(Clone, Copy, Debug, PartialEq, Eq, Structural)]
pub enum LlrtModule {
    Buffer,
    Console,
    Fs,
    FsPromises,
    Os,
    StreamWeb,
    Timers,
    Url,
}

/// What prepares the globals of a guest for LLRT.
#[derive(Clone, Copy, Debug, PartialEq, Eq, Structural)]
pub enum LlrtInitializer {
    Abort,
    Buffer,
    Console,
    Fetch,
    ProcessEnv,
    StreamWeb,
    Timers,
    Url,
}

/// What an entry of an LLRT library stands for.
pub type LlrtEntry = EntryView<LlrtModule, LlrtInitializer>;

/// A capability of LLRT.
pub enum Capability {
    Buffer,
    Console,
    Fetch,
    Fs,
    Os,
    ProcessEnv,
    Streams,
    Timers,
    Url,
}

/// The name of an initializer.
pub open spec fn initializer_name(initializer: LlrtInitializer) -> Seq<char> {
    match initializer {
        LlrtInitializer::Abort => "llrt:abort"@,
        LlrtInitializer::Buffer => "llrt:buffer"@,
        LlrtInitializer::Console => "llrt:console"@,
        LlrtInitializer::Fetch => "llrt:fetch"@,
        LlrtInitializer::ProcessEnv => "guestjs:process-env"@,
        LlrtInitializer::StreamWeb => "llrt:stream-web"@,
        LlrtInitializer::Timers => "llrt:timers"@,
        LlrtInitializer::Url => "llrt:url"@,
    }
}

/// The entry of an initializer.
pub open spec fn initializer_entry(initializer: LlrtInitializer) -> LlrtEntry {
    EntryView::Initializer((initializer_name(initializer), initializer))
}

/// The entry of a module with an alias and initializers.
pub open spec fn module_entry(
    name: Seq<char>,
    alias: Seq<char>,
    definition: LlrtModule,
    initializers: Seq<LlrtInitializer>,
) -> LlrtEntry {
    EntryView::Module(
        NativeModuleView {
            name,
            aliases: seq![alias],
            definition,
            initializers: initializers.map_values(
                |initializer: LlrtInitializer| (initializer_name(initializer), initializer),
            ),
        },
    )
}

/// The entries of a capability, in the order in which they are added.
pub open spec fn entries_of(capability: Capability) -> Seq<LlrtEntry> {
    match capability {
        Capability::Buffer => seq![
            module_entry(
                "buffer"@,
                "node:buffer"@,
                LlrtModule::Buffer,
                seq![LlrtInitializer::Buffer],
            ),
        ],
        Capability::Console => seq![
            module_entry(
                "console"@,
                "node:console"@,
                LlrtModule::Console,
                seq![LlrtInitializer::Console],
            ),
        ],
        Capability::Fetch => seq![
            initializer_entry(LlrtInitializer::Abort),
            initializer_entry(LlrtInitializer::StreamWeb),
            initializer_entry(LlrtInitializer::Buffer),
            initializer_entry(LlrtInitializer::Url),
            initializer_entry(LlrtInitializer::Fetch),
        ],
        Capability::Fs => seq![
            initializer_entry(LlrtInitializer::Buffer),
            module_entry("fs"@, "node:fs"@, LlrtModule::Fs, Seq::empty()),
            module_entry(
                "fs/promises"@,
                "node:fs/promises"@,
                LlrtModule::FsPromises,
                Seq::empty(),
            ),
        ],
        Capability::Os => seq![module_entry("os"@, "node:os"@, LlrtModule::Os, Seq::empty())],
        Capability::ProcessEnv => seq![initializer_entry(LlrtInitializer::ProcessEnv)],
        Capability::Streams => seq![
            module_entry(
                "stream/web"@,
                "node:stream/web"@,
                LlrtModule::StreamWeb,
                seq![LlrtInitializer::StreamWeb],
            ),
        ],
        Capability::Timers => seq![
            module_entry(
                "timers"@,
                "node:timers"@,
                LlrtModule::Timers,
                seq![LlrtInitializer::Timers],
            ),
        ],
        Capability::Url => seq![
            module_entry("url"@, "node:url"@, LlrtModule::Url, seq![LlrtInitializer::Url]),
        ],
    }
}

/// An LLRT native-library provider.
pub struct Llrt;

impl Llrt {
    /// Creates an [`LlrtBuilder`](crate::llrt::LlrtBuilder).
    pub fn builder() -> (r: LlrtBuilder)
        ensures
            r@ == Seq::<LlrtEntry>::empty(),
    {
        LlrtBuilder::default()
    }
}

impl LlrtInitializer {
    fn named(self) -> (r: NativeInitializer<LlrtInitializer>)
        ensures
            r@ == (initializer_name(self), self),
    {
        let name = match self {
            LlrtInitializer::Abort => "llrt:abort",
            LlrtInitializer::Buffer => "llrt:buffer",
            LlrtInitializer::Console => "llrt:console",
            LlrtInitializer::Fetch => "llrt:fetch",
            LlrtInitializer::ProcessEnv => "guestjs:process-env",
            LlrtInitializer::StreamWeb => "llrt:stream-web",
            LlrtInitializer::Timers => "llrt:timers",
            LlrtInitializer::Url => "llrt:url",
        };
        NativeInitializer::new(name, self)
    }
}

/// A selective LLRT native-library builder.
pub struct LlrtBuilder {
    library: NativeLibrary<LlrtModule, LlrtInitializer>,
}

impl View for LlrtBuilder {
    type V = Seq<LlrtEntry>;

    closed spec fn view(&self) -> Seq<LlrtEntry> {
        entry_views(self.library@)
    }
}

impl Default for LlrtBuilder {
    fn default() -> (r: Self)
        ensures
            r@ == Seq::<LlrtEntry>::empty(),
    {
        let r = LlrtBuilder { library: NativeLibrary::default() };
        assert(r@ =~= Seq::<LlrtEntry>::empty());
        r
    }
}

impl LlrtBuilder {
    fn initialized(self, initializer: LlrtInitializer) -> (r: Self)
        ensures
            r@ == self@.push(initializer_entry(initializer)),
    {
        let r = LlrtBuilder { library: self.library.initialize(initializer.named()) };
        assert(r@ =~= self@.push(initializer_entry(initializer)));
        r
    }

    fn provided(
        self,
        name: &str,
        alias: &str,
        definition: LlrtModule,
        initializer: Option<LlrtInitializer>,
    ) -> (r: Self)
        requires
            name@ != alias@,
        ensures
            r@ == self@.push(
                module_entry(
                    name@,
                    alias@,
                    definition,
                    match initializer {
                        Some(initializer) => seq![initializer],
                        None => Seq::empty(),
                    },
                ),
            ),
    {
        let ghost initializers = match initializer {
            Some(initializer) => seq![initializer],
            None => Seq::empty(),
        };
        let module = NativeModule::new(name, definition).alias(alias);
        assert(module@.aliases =~= seq![alias@]);
        let module = match initializer {
            Some(initializer) => module.initialize(initializer.named()),
            None => module,
        };
        assert(module@.initializers =~= initializers.map_values(
            |initializer: LlrtInitializer| (initializer_name(initializer), initializer),
        ));
        let r = LlrtBuilder { library: self.library.with(module) };
        assert(r@ =~= self@.push(module_entry(name@, alias@, definition, initializers)));
        r
    }

    /// Adds the LLRT buffer capability.
    pub fn buffer(self) -> (r: Self)
        ensures
            r@ == self@ + entries_of(Capability::Buffer),
    {
        proof {
            reveal_strlit("buffer");
            reveal_strlit("node:buffer");
            assert("buffer"@.len() != "node:buffer"@.len());
        }
        let r = self.provided(
            "buffer",
            "node:buffer",
            LlrtModule::Buffer,
            Some(LlrtInitializer::Buffer),
        );
        assert(r@ =~= self@ + entries_of(Capability::Buffer));
        r
    }

    /// Adds the LLRT console capability.
    pub fn console(self) -> (r: Self)
        ensures
            r@ == self@ + entries_of(Capability::Console),
    {
        proof {
            reveal_strlit("console");
            reveal_strlit("node:console");
            assert("console"@.len() != "node:console"@.len());
        }
        let r = self.provided(
            "console",
            "node:console",
            LlrtModule::Console,
            Some(LlrtInitializer::Console),
        );
        assert(r@ =~= self@ + entries_of(Capability::Console));
        r
    }

    /// Adds the LLRT fetch capability, behind what it needs.
    pub fn fetch(self) -> (r: Self)
        ensures
            r@ == self@ + entries_of(Capability::Fetch),
    {
        let r = self.initialized(LlrtInitializer::Abort).initialized(
            LlrtInitializer::StreamWeb,
        ).initialized(LlrtInitializer::Buffer).initialized(LlrtInitializer::Url).initialized(
            LlrtInitializer::Fetch,
        );
        assert(r@ =~= self@ + entries_of(Capability::Fetch));
        r
    }

    /// Adds the LLRT filesystem capability, behind the buffer globals that it needs.
    pub fn fs(self) -> (r: Self)
        ensures
            r@ == self@ + entries_of(Capability::Fs),
    {
        proof {
            reveal_strlit("fs");
            reveal_strlit("node:fs");
            assert("fs"@.len() != "node:fs"@.len());
            reveal_strlit("fs/promises");
            reveal_strlit("node:fs/promises");
            assert("fs/promises"@.len() != "node:fs/promises"@.len());
        }
        let r = self.initialized(LlrtInitializer::Buffer).provided(
            "fs",
            "node:fs",
            LlrtModule::Fs,
            None,
        ).provided("fs/promises", "node:fs/promises", LlrtModule::FsPromises, None);
        assert(r@ =~= self@ + entries_of(Capability::Fs));
        r
    }

    /// Adds the LLRT operating-system capability.
    pub fn os(self) -> (r: Self)
        ensures
            r@ == self@ + entries_of(Capability::Os),
    {
        proof {
            reveal_strlit("os");
            reveal_strlit("node:os");
            assert("os"@.len() != "node:os"@.len());
        }
        let r = self.provided("os", "node:os", LlrtModule::Os, None);
        assert(r@ =~= self@ + entries_of(Capability::Os));
        r
    }

    /// Adds the LLRT process environment snapshot.
    pub fn process_env(self) -> (r: Self)
        ensures
            r@ == self@ + entries_of(Capability::ProcessEnv),
    {
        let r = self.initialized(LlrtInitializer::ProcessEnv);
        assert(r@ =~= self@ + entries_of(Capability::ProcessEnv));
        r
    }

    /// Adds the LLRT Web Streams capability.
    pub fn streams(self) -> (r: Self)
        ensures
            r@ == self@ + entries_of(Capability::Streams),
    {
        proof {
            reveal_strlit("stream/web");
            reveal_strlit("node:stream/web");
            assert("stream/web"@.len() != "node:stream/web"@.len());
        }
        let r = self.provided(
            "stream/web",
            "node:stream/web",
            LlrtModule::StreamWeb,
            Some(LlrtInitializer::StreamWeb),
        );
        assert(r@ =~= self@ + entries_of(Capability::Streams));
        r
    }

    /// Adds the LLRT timers capability.
    pub fn timers(self) -> (r: Self)
        ensures
            r@ == self@ + entries_of(Capability::Timers),
    {
        proof {
            reveal_strlit("timers");
            reveal_strlit("node:timers");
            assert("timers"@.len() != "node:timers"@.len());
        }
        let r = self.provided(
            "timers",
            "node:timers",
            LlrtModule::Timers,
            Some(LlrtInitializer::Timers),
        );
        assert(r@ =~= self@ + entries_of(Capability::Timers));
        r
    }

    /// Adds the LLRT URL capability.
    pub fn url(self) -> (r: Self)
        ensures
            r@ == self@ + entries_of(Capability::Url),
    {
        proof {
            reveal_strlit("url");
            reveal_strlit("node:url");
            assert("url"@.len() != "node:url"@.len());
        }
        let r = self.provided("url", "node:url", LlrtModule::Url, Some(LlrtInitializer::Url));
        assert(r@ =~= self@ + entries_of(Capability::Url));
        r
    }

    /// Builds a [`NativeLibrary`](crate::native::NativeLibrary).
    pub fn build(self) -> (r: NativeLibrary<LlrtModule, LlrtInitializer>)
        ensures
            entry_views(r@) == self@,
    {
        self.library
    }
}

/// One step in the making of the process environment of a guest.
pub enum ProcessEnvStep {
    /// Create the `process` object, as the guest has none.
    CreateProcess,
    /// Create the `env` object.
    CreateEnv,
    /// Define a variable on the `env` object.
    SetVariable(String, String),
    /// Make the `env` object a property of the `process` object.
    AttachEnv,
    /// Make the `process` object a global.
    AttachProcess,
}

/// Whether the steps make the environment of a guest: the `process` object is created only where
/// there is none, and all variables are defined before the environment is attached.
pub open spec fn makes_process_env(
    has_process: bool,
    variables: Seq<(String, String)>,
    steps: Seq<ProcessEnvStep>,
) -> bool {
    let before = if has_process {
        seq![ProcessEnvStep::CreateEnv]
    } else {
        seq![ProcessEnvStep::CreateProcess, ProcessEnvStep::CreateEnv]
    };
    steps == before + variables.map_values(
        |variable: (String, String)| ProcessEnvStep::SetVariable(variable.0, variable.1),
    ) + seq![ProcessEnvStep::AttachEnv, ProcessEnvStep::AttachProcess]
}

/// Lists the steps that make the environment of a guest from the variables of the host.
pub fn process_env_steps(has_process: bool, variables: Vec<(String, String)>) -> (r: Vec<
    ProcessEnvStep,
>)
    ensures
        makes_process_env(has_process, variables@, r@),
{
    let ghost all = variables@;
    let ghost defined = all.map_values(
        |variable: (String, String)| ProcessEnvStep::SetVariable(variable.0, variable.1),
    );
    let mut steps: Vec<ProcessEnvStep> = Vec::new();
    if !has_process {
        steps.push(ProcessEnvStep::CreateProcess);
    }
    steps.push(ProcessEnvStep::CreateEnv);
    let ghost before = steps@;
    let mut pending = variables;
    let total: usize = pending.len();
    let mut done: usize = 0;
    crate::sequences::reverse(&mut pending);
    while done < total
        invariant
            done <= total,
            total == all.len(),
            pending@.len() == total - done,
            forall|i: int|
                0 <= i < pending@.len() ==> #[trigger] pending@[i] == all[total - 1 - i],
            defined == all.map_values(
                |variable: (String, String)| ProcessEnvStep::SetVariable(variable.0, variable.1),
            ),
            steps@ =~= before + defined.take(done as int),
        decreases total - done,
    {
        match pending.pop() {
            Some((name, value)) => {
                assert((name, value) == all[done as int]);
                steps.push(ProcessEnvStep::SetVariable(name, value));
            }
            None => {
                assert(false);
            }
        }
        done += 1;
    }
    assert(defined.take(done as int) =~= defined);
    steps.push(ProcessEnvStep::AttachEnv);
    steps.push(ProcessEnvStep::AttachProcess);
    assert(makes_process_env(has_process, all, steps@)) by {
        let first = if has_process {
            seq![ProcessEnvStep::CreateEnv]
        } else {
            seq![ProcessEnvStep::CreateProcess, ProcessEnvStep::CreateEnv]
        };
        assert(before =~= first);
        assert(steps@ =~= first + defined + seq![
            ProcessEnvStep::AttachEnv,
            ProcessEnvStep::AttachProcess,
        ]);
    }
    steps
}

/// The initializers of an entry, with their names.
pub open spec fn initializers_in(entry: LlrtEntry) -> Seq<(Seq<char>, LlrtInitializer)> {
    match entry {
        EntryView::Module(module) => module.initializers,
        EntryView::Initializer(initializer) => seq![initializer],
    }
}

/// Every module of a capability answers to its name and, with the same definition, to the name
/// behind `node:`.
pub proof fn law_modules_have_a_node_alias(capability: Capability, i: int)
    requires
        0 <= i < entries_of(capability).len(),
    ensures
        entries_of(capability)[i] matches EntryView::Module(module) ==> module.answers_to(
            "node:"@ + module.name,
        ) && module.answers_to(module.name) && module.lists_each_specifier_once(),
{
    reveal_strlit("node:");
    reveal_strlit("buffer");
    reveal_strlit("node:buffer");
    reveal_strlit("console");
    reveal_strlit("node:console");
    reveal_strlit("fs");
    reveal_strlit("node:fs");
    reveal_strlit("fs/promises");
    reveal_strlit("node:fs/promises");
    reveal_strlit("os");
    reveal_strlit("node:os");
    reveal_strlit("stream/web");
    reveal_strlit("node:stream/web");
    reveal_strlit("timers");
    reveal_strlit("node:timers");
    reveal_strlit("url");
    reveal_strlit("node:url");
    if let EntryView::Module(module) = entries_of(capability)[i] {
        assert(module.aliases.len() == 1);
        assert(module.aliases[0] =~= "node:"@ + module.name);
    }
}

/// Two entries that name the same initializer mean the same one, so that running each name once
/// leaves nothing out, however capabilities are combined.
pub proof fn law_initializer_names_are_unambiguous(
    a: Capability,
    i: int,
    p: int,
    b: Capability,
    j: int,
    q: int,
)
    requires
        0 <= i < entries_of(a).len(),
        0 <= p < initializers_in(entries_of(a)[i]).len(),
        0 <= j < entries_of(b).len(),
        0 <= q < initializers_in(entries_of(b)[j]).len(),
        initializers_in(entries_of(a)[i])[p].0 == initializers_in(entries_of(b)[j])[q].0,
    ensures
        initializers_in(entries_of(a)[i])[p].1 == initializers_in(entries_of(b)[j])[q].1,
{
    let first = initializers_in(entries_of(a)[i])[p];
    let second = initializers_in(entries_of(b)[j])[q];
    assert(first.0 == initializer_name(first.1));
    assert(second.0 == initializer_name(second.1));
    lemma_names_differ(first.1, second.1);
}

proof fn lemma_names_differ(a: LlrtInitializer, b: LlrtInitializer)
    requires
        initializer_name(a) == initializer_name(b),
    ensures
        a == b,
{
    reveal_strlit("llrt:abort");
    reveal_strlit("llrt:buffer");
    reveal_strlit("llrt:console");
    reveal_strlit("llrt:fetch");
    reveal_strlit("guestjs:process-env");
    reveal_strlit("llrt:stream-web");
    reveal_strlit("llrt:timers");
    reveal_strlit("llrt:url");
    assert("llrt:abort"@.len() == 10 && "llrt:abort"@[5] == 'a');
    assert("llrt:buffer"@.len() == 11 && "llrt:buffer"@[5] == 'b');
    assert("llrt:console"@.len() == 12);
    assert("llrt:fetch"@.len() == 10 && "llrt:fetch"@[5] == 'f');
    assert("guestjs:process-env"@.len() == 19);
    assert("llrt:stream-web"@.len() == 15);
    assert("llrt:timers"@.len() == 11 && "llrt:timers"@[5] == 't');
    assert("llrt:url"@.len() == 8);
}

/// The fetch capability is initialized behind everything that it needs.
pub proof fn law_fetch_follows_its_prerequisites(i: int)
    requires
        0 <= i < entries_of(Capability::Fetch).len(),
    ensures
        entries_of(Capability::Fetch)[i] == initializer_entry(LlrtInitializer::Fetch) ==> {
            &&& entries_of(Capability::Fetch).take(i).contains(
                initializer_entry(LlrtInitializer::Abort),
            )
            &&& entries_of(Capability::Fetch).take(i).contains(
                initializer_entry(LlrtInitializer::StreamWeb),
            )
            &&& entries_of(Capability::Fetch).take(i).contains(
                initializer_entry(LlrtInitializer::Buffer),
            )
            &&& entries_of(Capability::Fetch).take(i).contains(
                initializer_entry(LlrtInitializer::Url),
            )
        },
{
    let entries = entries_of(Capability::Fetch);
    if entries[i] == initializer_entry(LlrtInitializer::Fetch) {
        assert(i == 4);
        assert(entries.take(i)[0] == initializer_entry(LlrtInitializer::Abort));
        assert(entries.take(i)[1] == initializer_entry(LlrtInitializer::StreamWeb));
        assert(entries.take(i)[2] == initializer_entry(LlrtInitializer::Buffer));
        assert(entries.take(i)[3] == initializer_entry(LlrtInitializer::Url));
    }
}

} // verus!
