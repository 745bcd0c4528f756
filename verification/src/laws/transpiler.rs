//! Guest sources on their way to JavaScript.

use vstd::prelude::*;

use crate::errors::Error;
use crate::laws::errors::says_transpile;
use crate::native::module::texts;
use crate::runtime::TranspilerChoice;
use crate::transpiler::{
    after_last, check_emitted, check_parsed, emitted, extension, file_name, list_messages,
    listed, may_detect, may_emit, may_parse, parsed, OxcTranspiler, Transpiler,
};

verus! {

/// A path of a directory, which is empty or ends in a slash, and a file name that every platform
/// reads alike.
pub open spec fn is_plain_path(path: Seq<char>, directory: Seq<char>, file: Seq<char>) -> bool {
    &&& path == directory + file
    &&& directory.len() == 0 || directory.last() == '/'
    &&& file.len() > 0
    &&& file != seq!['.']
    &&& !file.contains('/')
    &&& !path.contains('\\')
    &&& !(path.len() >= 2 && path[1] == ':')
    &&& !(path.len() >= 2 && path[0] == '/' && path[1] == '/')
}

proof fn lemma_nothing_behind(text: Seq<char>, c: char)
    requires
        !text.contains(c),
    ensures
        after_last(text, c) is None,
    decreases text.len(),
{
    if text.len() > 0 {
        assert(text[text.len() - 1] == text.last());
        assert forall|i: int| 0 <= i < text.len() - 1 implies text.drop_last()[i] != c by {
            assert(text[i] == text.drop_last()[i]);
        }
        lemma_nothing_behind(text.drop_last(), c);
    }
}

proof fn lemma_behind_the_last(before: Seq<char>, c: char, behind: Seq<char>)
    requires
        !behind.contains(c),
    ensures
        after_last(before + seq![c] + behind, c) == Some(behind),
    decreases behind.len(),
{
    let text = before + seq![c] + behind;
    if behind.len() == 0 {
        assert(text.last() == c);
        assert(behind =~= Seq::empty());
    } else {
        let shorter = behind.drop_last();
        assert(text.last() == behind.last());
        assert(behind[behind.len() - 1] == behind.last());
        assert(text.drop_last() =~= before + seq![c] + shorter);
        assert forall|i: int| 0 <= i < shorter.len() implies shorter[i] != c by {
            assert(behind[i] == shorter[i]);
        }
        lemma_behind_the_last(before, c, shorter);
        assert(shorter.push(behind.last()) =~= behind);
    }
}

proof fn lemma_file_of_path(path: Seq<char>, directory: Seq<char>, file: Seq<char>)
    requires
        is_plain_path(path, directory, file),
    ensures
        file_name(path) == file,
        crate::transpiler::is_portable(path),
{
    reveal_strlit(".");
    assert("."@ =~= seq!['.']);
    if directory.len() == 0 {
        assert(path =~= file);
        lemma_nothing_behind(path, '/');
    } else {
        assert(path =~= directory.drop_last() + seq!['/'] + file);
        lemma_behind_the_last(directory.drop_last(), '/', file);
    }
}

/// Whether an extension is one of TypeScript.
pub open spec fn is_typescript(extension: Seq<char>) -> bool {
    ||| extension == seq!['t', 's']
    ||| extension == seq!['m', 't', 's']
    ||| extension == seq!['c', 't', 's']
    ||| extension == seq!['t', 's', 'x']
}

proof fn lemma_typescript_extensions()
    ensures
        "ts"@ == seq!['t', 's'],
        "mts"@ == seq!['m', 't', 's'],
        "cts"@ == seq!['c', 't', 's'],
        "tsx"@ == seq!['t', 's', 'x'],
{
    reveal_strlit("ts");
    reveal_strlit("mts");
    reveal_strlit("cts");
    reveal_strlit("tsx");
    assert("ts"@ =~= seq!['t', 's']);
    assert("mts"@ =~= seq!['m', 't', 's']);
    assert("cts"@ =~= seq!['c', 't', 's']);
    assert("tsx"@ =~= seq!['t', 's', 'x']);
}

proof fn lemma_extension_of(stem: Seq<char>, behind: Seq<char>)
    requires
        stem.len() > 0,
        !behind.contains('.'),
    ensures
        extension(stem + seq!['.'] + behind) == Some(behind),
{
    lemma_behind_the_last(stem, '.', behind);
}

/// A file with an extension of TypeScript is turned into the code that oxc emits for it, whatever
/// its source is, where oxc parses and transforms it without errors.
pub proof fn law_typescript_becomes_what_oxc_emits(
    transpiler: &OxcTranspiler,
    name: &str,
    source: &str,
    result: Result<String, Error>,
    directory: Seq<char>,
    stem: Seq<char>,
    behind: Seq<char>,
)
    requires
        call_ensures(
            <OxcTranspiler as Transpiler>::transpile,
            (transpiler, name, source),
            result,
        ),
        is_plain_path(name@, directory, stem + seq!['.'] + behind),
        stem.len() > 0,
        is_typescript(behind),
        !parsed(name@, source@).0,
        parsed(name@, source@).1.len() == 0,
        emitted(name@, source@).0.len() == 0,
    ensures
        result matches Ok(code) && code@ == emitted(name@, source@).1,
{
    lemma_typescript_extensions();
    lemma_file_of_path(name@, directory, stem + seq!['.'] + behind);
    lemma_extension_of(stem, behind);
}

/// A file with an extension of TypeScript that oxc cannot parse or transform is refused: nothing is
/// ever handed on for it.
pub proof fn law_broken_typescript_is_refused(
    transpiler: &OxcTranspiler,
    name: &str,
    source: &str,
    result: Result<String, Error>,
    directory: Seq<char>,
    stem: Seq<char>,
    behind: Seq<char>,
)
    requires
        call_ensures(
            <OxcTranspiler as Transpiler>::transpile,
            (transpiler, name, source),
            result,
        ),
        is_plain_path(name@, directory, stem + seq!['.'] + behind),
        stem.len() > 0,
        is_typescript(behind),
        parsed(name@, source@).0 || parsed(name@, source@).1.len() > 0 || emitted(
            name@,
            source@,
        ).0.len() > 0,
    ensures
        result matches Err(error) && says_transpile(
            error,
            if parsed(name@, source@).0 || parsed(name@, source@).1.len() > 0 {
                listed(parsed(name@, source@).1)
            } else {
                listed(emitted(name@, source@).0)
            },
        ),
        parsed(name@, source@).1.len() == 1 ==> result->Err_0.details() == Some(
            (parsed(name@, source@).1[0], None::<Seq<char>>),
        ),
        !parsed(name@, source@).0 && parsed(name@, source@).1.len() == 0 && emitted(
            name@,
            source@,
        ).0.len() == 1 ==> result->Err_0.details() == Some(
            (emitted(name@, source@).0[0], None::<Seq<char>>),
        ),
{
    lemma_typescript_extensions();
    lemma_file_of_path(name@, directory, stem + seq!['.'] + behind);
    lemma_extension_of(stem, behind);
}

/// A file with any other extension keeps its source.
pub proof fn law_other_extensions_keep_their_source(
    transpiler: &OxcTranspiler,
    name: &str,
    source: &str,
    result: Result<String, Error>,
    directory: Seq<char>,
    stem: Seq<char>,
    behind: Seq<char>,
)
    requires
        call_ensures(
            <OxcTranspiler as Transpiler>::transpile,
            (transpiler, name, source),
            result,
        ),
        is_plain_path(name@, directory, stem + seq!['.'] + behind),
        stem.len() > 0,
        !behind.contains('.'),
        !is_typescript(behind),
    ensures
        result matches Ok(code) && code@ == source@,
{
    lemma_typescript_extensions();
    lemma_file_of_path(name@, directory, stem + seq!['.'] + behind);
    lemma_extension_of(stem, behind);
}

/// A file without an extension keeps its source; a name that only starts with its one dot has none.
pub proof fn law_files_without_extension_keep_their_source(
    transpiler: &OxcTranspiler,
    name: &str,
    source: &str,
    result: Result<String, Error>,
    directory: Seq<char>,
    file: Seq<char>,
)
    requires
        call_ensures(
            <OxcTranspiler as Transpiler>::transpile,
            (transpiler, name, source),
            result,
        ),
        is_plain_path(name@, directory, file),
        !file.drop_first().contains('.'),
    ensures
        result matches Ok(code) && code@ == source@,
{
    lemma_file_of_path(name@, directory, file);
    if file[0] == '.' {
        assert(file =~= Seq::<char>::empty() + seq!['.'] + file.drop_first());
        lemma_behind_the_last(Seq::empty(), '.', file.drop_first());
    } else {
        assert forall|i: int| 0 <= i < file.len() implies file[i] != '.' by {
            if i > 0 {
                assert(file.drop_first()[i - 1] == file[i]);
            }
        }
        lemma_nothing_behind(file, '.');
    }
}

/// Whatever the name is, source is kept only where oxc does not detect TypeScript, and code is
/// handed on only where oxc does, parsed the source cleanly, and emitted the code without errors.
pub proof fn law_any_name_goes_through_the_stages(
    transpiler: &OxcTranspiler,
    name: &str,
    source: &str,
    result: Result<String, Error>,
)
    requires
        call_ensures(
            <OxcTranspiler as Transpiler>::transpile,
            (transpiler, name, source),
            result,
        ),
    ensures
        !may_detect(name, true) ==> (result matches Ok(code) && code@ == source@),
        !may_detect(name, false) ==> exists|report: (bool, Vec<String>)| #[trigger]
            may_parse(name, source, report) && (report.0 || report.1@.len() > 0 ==> (
            result matches Err(error) && says_transpile(error, listed(texts(report.1@)))))
                && (!report.0 && report.1@.len() == 0
                ==> exists|made: (Vec<String>, String)| #[trigger]
                may_emit(name, source, made) && (made.0@.len() > 0 ==> (result matches Err(error)
                    && says_transpile(error, listed(texts(made.0@))))) && (made.0@.len()
                        == 0 ==> (result matches Ok(code)
                    && code@ == made.1@))),
{
}

/// A runtime with oxc turns TypeScript into what oxc emits, one with a transpiler of its own into
/// what that gives, and one without any keeps the source.
pub proof fn law_chosen_transpiler_decides<T: Transpiler>(
    choice: &TranspilerChoice<T>,
    name: &str,
    source: &str,
    result: Result<String, Error>,
    directory: Seq<char>,
    stem: Seq<char>,
    behind: Seq<char>,
)
    requires
        call_ensures(TranspilerChoice::<T>::transpile, (choice, name, source), result),
        is_plain_path(name@, directory, stem + seq!['.'] + behind),
        stem.len() > 0,
        !behind.contains('.'),
    ensures
        *choice is Absent ==> (result matches Ok(code) && code@ == source@),
        *choice matches TranspilerChoice::Custom(own) ==> call_ensures(
            T::transpile,
            (&own, name, source),
            result,
        ),
        *choice is Oxc && !is_typescript(behind) ==> (result matches Ok(code) && code@ == source@),
        *choice is Oxc && is_typescript(behind) && !parsed(name@, source@).0 && parsed(
            name@,
            source@,
        ).1.len() == 0 && emitted(name@, source@).0.len() == 0 ==> (result matches Ok(code)
            && code@ == emitted(name@, source@).1),
{
    lemma_typescript_extensions();
    lemma_file_of_path(name@, directory, stem + seq!['.'] + behind);
    lemma_extension_of(stem, behind);
}

/// Messages are listed in order: none is nothing, one stands for itself, and one more is added
/// behind a semicolon and a space.
pub proof fn law_messages_are_listed_in_order(
    messages: &Vec<String>,
    text: String,
    more: &Vec<String>,
    longer: String,
)
    requires
        call_ensures(list_messages, (messages,), text),
        call_ensures(list_messages, (more,), longer),
    ensures
        messages@.len() == 0 ==> text@.len() == 0,
        messages@.len() == 1 ==> text@ == messages@[0]@,
        messages@.len() >= 1 && more@.len() == messages@.len() + 1 && (forall|i: int|
            0 <= i < messages@.len() ==> (#[trigger] more@[i])@ == messages@[i]@) ==> longer@
            == text@ + seq![';', ' '] + more@.last()@,
{
    reveal_strlit("; ");
    assert("; "@ =~= seq![';', ' ']);
    let some = crate::native::module::texts(messages@);
    let all = crate::native::module::texts(more@);
    if messages@.len() == 0 {
        assert(some.len() == 0);
    }
    if messages@.len() >= 1 && more@.len() == messages@.len() + 1 && (forall|i: int|
        0 <= i < messages@.len() ==> (#[trigger] more@[i])@ == messages@[i]@) {
        assert forall|i: int| 0 <= i < some.len() implies all.drop_last()[i] == some[i] by {
            assert(more@[i]@ == messages@[i]@);
        }
        assert(all.drop_last() =~= some);
        assert(all.last() == more@.last()@);
    }
}

/// A parse is accepted exactly where the parser did not give up and reported nothing.
pub proof fn law_clean_parses_are_accepted(
    gave_up: bool,
    messages: &Vec<String>,
    checked: Result<(), Error>,
    text: String,
)
    requires
        call_ensures(check_parsed, (gave_up, messages), checked),
        call_ensures(list_messages, (messages,), text),
    ensures
        checked is Ok <==> !gave_up && messages@.len() == 0,
        checked matches Err(error) ==> says_transpile(error, text@),
{
}

/// Emitted code is handed on exactly where the transformer reported nothing.
pub proof fn law_clean_code_is_handed_on(
    messages: &Vec<String>,
    code: String,
    checked: Result<String, Error>,
    text: String,
)
    requires
        call_ensures(check_emitted, (messages, code), checked),
        call_ensures(list_messages, (messages,), text),
    ensures
        messages@.len() == 0 <==> checked is Ok,
        checked matches Ok(given) ==> given@ == code@,
        checked matches Err(error) ==> says_transpile(error, text@),
{
}

} // verus!
