//! Libraries of LLRT.

use vstd::prelude::*;

use crate::llrt::{
    process_env_steps, LlrtBuilder, LlrtEntry, LlrtInitializer, LlrtModule, ProcessEnvStep,
};
use crate::native::library::{entry_views, EntryView, NativeLibrary, NativeLibraryEntry};

verus! {

/// Whether an entry is a module of a name that also answers to the name behind `node:`, with a
/// definition and at most one initializer.
pub open spec fn is_node_module(
    entry: LlrtEntry,
    name: Seq<char>,
    definition: LlrtModule,
    initializer: Option<(Seq<char>, LlrtInitializer)>,
) -> bool {
    entry matches EntryView::Module(module) && module.name == name && module.aliases.len() == 1
        && module.aliases[0] == seq!['n', 'o', 'd', 'e', ':'] + name && module.definition
        == definition && match initializer {
        Some(only) => module.initializers.len() == 1 && module.initializers[0] == only,
        None => module.initializers.len() == 0,
    }
}

/// Whether an entry is an initializer of a name.
pub open spec fn is_initializer(
    entry: LlrtEntry,
    name: Seq<char>,
    initializer: LlrtInitializer,
) -> bool {
    entry == EntryView::<LlrtModule, LlrtInitializer>::Initializer((name, initializer))
}

/// The buffer capability adds its entry behind what is there, and nothing else.
pub proof fn law_buffer_adds_its_entries(builder: LlrtBuilder, next: LlrtBuilder, i: int)
    requires
        call_ensures(LlrtBuilder::buffer, (builder,), next),
    ensures
        next@.len() == builder@.len() + 1,
        0 <= i < builder@.len() ==> next@[i] == builder@[i],
        is_node_module(
            next@[builder@.len() as int],
            "buffer"@,
            LlrtModule::Buffer,
            Some(("llrt:buffer"@, LlrtInitializer::Buffer)),
        ),
{
    reveal_strlit("buffer");
    reveal_strlit("node:buffer");
    assert("node:buffer"@ =~= seq!['n', 'o', 'd', 'e', ':'] + "buffer"@);
}

/// The console capability adds its entry behind what is there, and nothing else.
pub proof fn law_console_adds_its_entries(builder: LlrtBuilder, next: LlrtBuilder, i: int)
    requires
        call_ensures(LlrtBuilder::console, (builder,), next),
    ensures
        next@.len() == builder@.len() + 1,
        0 <= i < builder@.len() ==> next@[i] == builder@[i],
        is_node_module(
            next@[builder@.len() as int],
            "console"@,
            LlrtModule::Console,
            Some(("llrt:console"@, LlrtInitializer::Console)),
        ),
{
    reveal_strlit("console");
    reveal_strlit("node:console");
    assert("node:console"@ =~= seq!['n', 'o', 'd', 'e', ':'] + "console"@);
}

/// The fetch capability adds its entries, in order, behind what is there, and nothing else.
pub proof fn law_fetch_adds_its_entries(builder: LlrtBuilder, next: LlrtBuilder, i: int)
    requires
        call_ensures(LlrtBuilder::fetch, (builder,), next),
    ensures
        next@.len() == builder@.len() + 5,
        0 <= i < builder@.len() ==> next@[i] == builder@[i],
        is_initializer(next@[builder@.len() as int], "llrt:abort"@, LlrtInitializer::Abort),
        is_initializer(next@[builder@.len() + 1int], "llrt:stream-web"@,
            LlrtInitializer::StreamWeb),
        is_initializer(next@[builder@.len() + 2int], "llrt:buffer"@, LlrtInitializer::Buffer),
        is_initializer(next@[builder@.len() + 3int], "llrt:url"@, LlrtInitializer::Url),
        is_initializer(next@[builder@.len() + 4int], "llrt:fetch"@, LlrtInitializer::Fetch),
{
}

/// The file system capability adds its entries, in order, behind what is there, and nothing else.
pub proof fn law_fs_adds_its_entries(builder: LlrtBuilder, next: LlrtBuilder, i: int)
    requires
        call_ensures(LlrtBuilder::fs, (builder,), next),
    ensures
        next@.len() == builder@.len() + 3,
        0 <= i < builder@.len() ==> next@[i] == builder@[i],
        is_initializer(next@[builder@.len() as int], "llrt:buffer"@, LlrtInitializer::Buffer),
        is_node_module(
            next@[builder@.len() + 1int],
            "fs"@,
            LlrtModule::Fs,
            None,
        ),
        is_node_module(
            next@[builder@.len() + 2int],
            "fs/promises"@,
            LlrtModule::FsPromises,
            None,
        ),
{
    reveal_strlit("fs");
    reveal_strlit("node:fs");
    assert("node:fs"@ =~= seq!['n', 'o', 'd', 'e', ':'] + "fs"@);
    reveal_strlit("fs/promises");
    reveal_strlit("node:fs/promises");
    assert("node:fs/promises"@ =~= seq!['n', 'o', 'd', 'e', ':'] + "fs/promises"@);
}

/// The operating system capability adds its entry behind what is there, and nothing else.
pub proof fn law_os_adds_its_entries(builder: LlrtBuilder, next: LlrtBuilder, i: int)
    requires
        call_ensures(LlrtBuilder::os, (builder,), next),
    ensures
        next@.len() == builder@.len() + 1,
        0 <= i < builder@.len() ==> next@[i] == builder@[i],
        is_node_module(
            next@[builder@.len() as int],
            "os"@,
            LlrtModule::Os,
            None,
        ),
{
    reveal_strlit("os");
    reveal_strlit("node:os");
    assert("node:os"@ =~= seq!['n', 'o', 'd', 'e', ':'] + "os"@);
}

/// The environment capability adds its entry behind what is there, and nothing else.
pub proof fn law_process_env_adds_its_entries(builder: LlrtBuilder, next: LlrtBuilder, i: int)
    requires
        call_ensures(LlrtBuilder::process_env, (builder,), next),
    ensures
        next@.len() == builder@.len() + 1,
        0 <= i < builder@.len() ==> next@[i] == builder@[i],
        is_initializer(next@[builder@.len() as int], "guestjs:process-env"@,
            LlrtInitializer::ProcessEnv),
{
}

/// The stream capability adds its entry behind what is there, and nothing else.
pub proof fn law_streams_adds_its_entries(builder: LlrtBuilder, next: LlrtBuilder, i: int)
    requires
        call_ensures(LlrtBuilder::streams, (builder,), next),
    ensures
        next@.len() == builder@.len() + 1,
        0 <= i < builder@.len() ==> next@[i] == builder@[i],
        is_node_module(
            next@[builder@.len() as int],
            "stream/web"@,
            LlrtModule::StreamWeb,
            Some(("llrt:stream-web"@, LlrtInitializer::StreamWeb)),
        ),
{
    reveal_strlit("stream/web");
    reveal_strlit("node:stream/web");
    assert("node:stream/web"@ =~= seq!['n', 'o', 'd', 'e', ':'] + "stream/web"@);
}

/// The timer capability adds its entry behind what is there, and nothing else.
pub proof fn law_timers_adds_its_entries(builder: LlrtBuilder, next: LlrtBuilder, i: int)
    requires
        call_ensures(LlrtBuilder::timers, (builder,), next),
    ensures
        next@.len() == builder@.len() + 1,
        0 <= i < builder@.len() ==> next@[i] == builder@[i],
        is_node_module(
            next@[builder@.len() as int],
            "timers"@,
            LlrtModule::Timers,
            Some(("llrt:timers"@, LlrtInitializer::Timers)),
        ),
{
    reveal_strlit("timers");
    reveal_strlit("node:timers");
    assert("node:timers"@ =~= seq!['n', 'o', 'd', 'e', ':'] + "timers"@);
}

/// The URL capability adds its entry behind what is there, and nothing else.
pub proof fn law_url_adds_its_entries(builder: LlrtBuilder, next: LlrtBuilder, i: int)
    requires
        call_ensures(LlrtBuilder::url, (builder,), next),
    ensures
        next@.len() == builder@.len() + 1,
        0 <= i < builder@.len() ==> next@[i] == builder@[i],
        is_node_module(
            next@[builder@.len() as int],
            "url"@,
            LlrtModule::Url,
            Some(("llrt:url"@, LlrtInitializer::Url)),
        ),
{
    reveal_strlit("url");
    reveal_strlit("node:url");
    assert("node:url"@ =~= seq!['n', 'o', 'd', 'e', ':'] + "url"@);
}

/// A library starts empty, and building it keeps every entry, in order.
pub proof fn law_built_library_has_every_entry(
    fresh: LlrtBuilder,
    builder: LlrtBuilder,
    library: NativeLibrary<LlrtModule, LlrtInitializer>,
    i: int,
)
    requires
        call_ensures(crate::llrt::Llrt::builder, (), fresh),
        call_ensures(LlrtBuilder::build, (builder,), library),
    ensures
        fresh@.len() == 0,
        library@.len() == builder@.len(),
        0 <= i < library@.len() ==> match library@[i] {
            NativeLibraryEntry::Module(module) => builder@[i] == EntryView::<
                LlrtModule,
                LlrtInitializer,
            >::Module(module@),
            NativeLibraryEntry::Initializer(initializer) => builder@[i] == EntryView::<
                LlrtModule,
                LlrtInitializer,
            >::Initializer(initializer@),
        },
{
    assert(entry_views(library@).len() == library@.len());
    if 0 <= i < library@.len() {
        assert(entry_views(library@)[i] == builder@[i]);
    }
}

/// The environment of a guest gets every variable, in order, between the creation of its object and
/// its attachment. A `process` object is created only where there is none.
pub proof fn law_environment_gets_every_variable(
    has_process: bool,
    variables: Vec<(String, String)>,
    steps: Vec<ProcessEnvStep>,
    i: int,
)
    requires
        call_ensures(process_env_steps, (has_process, variables), steps),
    ensures
        ({
            let first: int = if has_process {
                0
            } else {
                1
            };
            &&& steps@.len() == first + variables@.len() + 3
            &&& !has_process ==> steps@[0] is CreateProcess
            &&& steps@[first] is CreateEnv
            &&& 0 <= i < variables@.len() ==> steps@[first + 1 + i]
                == ProcessEnvStep::SetVariable(variables@[i].0, variables@[i].1)
            &&& steps@[steps@.len() - 2] is AttachEnv
            &&& steps@[steps@.len() - 1] is AttachProcess
        }),
{
}

/// A default builder has no entries.
pub proof fn law_default_builder_is_empty(builder: LlrtBuilder)
    requires
        call_ensures(<LlrtBuilder as Default>::default, (), builder),
    ensures
        builder@.len() == 0,
{
}

} // verus!
