use guestjs::llrt::{process_env_steps, Llrt, LlrtBuilder, LlrtInitializer, LlrtModule, ProcessEnvStep};
use guestjs::native::library::NativeLibraryEntry;

fn listed(builder: LlrtBuilder) -> Vec<String> {
    builder
        .build()
        .into_entries()
        .into_iter()
        .map(|entry| match entry {
            NativeLibraryEntry::Module(module) => format!(
                "{} {:?} {:?} {:?}",
                module.name(),
                module.aliases(),
                module.definition(),
                module
                    .initializers()
                    .iter()
                    .map(|initializer| (initializer.name(), *initializer.callback()))
                    .collect::<Vec<_>>(),
            ),
            NativeLibraryEntry::Initializer(initializer) => {
                format!("{} {:?}", initializer.name(), initializer.callback())
            }
        })
        .collect()
}

#[test]
fn nothing_is_provided_unasked() {
    assert!(listed(Llrt::builder()).is_empty());
}

#[test]
fn modules_answer_to_their_node_names() {
    assert_eq!(
        listed(Llrt::builder().buffer()),
        vec!["buffer [\"node:buffer\"] Buffer [(\"llrt:buffer\", Buffer)]"],
    );
    assert_eq!(
        listed(Llrt::builder().console()),
        vec!["console [\"node:console\"] Console [(\"llrt:console\", Console)]"],
    );
    assert_eq!(listed(Llrt::builder().os()), vec!["os [\"node:os\"] Os []"]);
    assert_eq!(
        listed(Llrt::builder().streams()),
        vec!["stream/web [\"node:stream/web\"] StreamWeb [(\"llrt:stream-web\", StreamWeb)]"],
    );
    assert_eq!(
        listed(Llrt::builder().timers()),
        vec!["timers [\"node:timers\"] Timers [(\"llrt:timers\", Timers)]"],
    );
    assert_eq!(
        listed(Llrt::builder().url()),
        vec!["url [\"node:url\"] Url [(\"llrt:url\", Url)]"],
    );
}

#[test]
fn files_need_the_buffer_globals() {
    assert_eq!(
        listed(Llrt::builder().fs()),
        vec![
            "llrt:buffer Buffer",
            "fs [\"node:fs\"] Fs []",
            "fs/promises [\"node:fs/promises\"] FsPromises []",
        ],
    );
}

#[test]
fn fetch_comes_behind_what_it_needs() {
    assert_eq!(
        listed(Llrt::builder().fetch()),
        vec![
            "llrt:abort Abort",
            "llrt:stream-web StreamWeb",
            "llrt:buffer Buffer",
            "llrt:url Url",
            "llrt:fetch Fetch",
        ],
    );
}

#[test]
fn capabilities_are_added_in_order() {
    let entries = listed(Llrt::builder().url().process_env());

    assert_eq!(entries.len(), 2);
    assert_eq!(entries[1], "guestjs:process-env ProcessEnv");
    assert_ne!(LlrtModule::Fs, LlrtModule::FsPromises);
    assert_ne!(LlrtInitializer::Abort, LlrtInitializer::Buffer);
}

fn steps(has_process: bool) -> Vec<String> {
    process_env_steps(
        has_process,
        vec![("A".to_owned(), "1".to_owned()), ("B".to_owned(), "2".to_owned())],
    )
    .into_iter()
    .map(|step| match step {
        ProcessEnvStep::CreateProcess => "create process".to_owned(),
        ProcessEnvStep::CreateEnv => "create env".to_owned(),
        ProcessEnvStep::SetVariable(name, value) => format!("{name}={value}"),
        ProcessEnvStep::AttachEnv => "attach env".to_owned(),
        ProcessEnvStep::AttachProcess => "attach process".to_owned(),
    })
    .collect()
}

#[test]
fn an_existing_process_object_is_kept() {
    assert_eq!(steps(true), vec!["create env", "A=1", "B=2", "attach env", "attach process"]);
    assert_eq!(
        steps(false),
        vec!["create process", "create env", "A=1", "B=2", "attach env", "attach process"],
    );
}
