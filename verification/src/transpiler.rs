//! From guest source to JavaScript.

use std::path::Path;

use oxc::allocator::Allocator;
use oxc::codegen::Codegen;
use oxc::parser::Parser;
use oxc::semantic::SemanticBuilder;
use oxc::span::SourceType;
use oxc::transformer::{TransformOptions, Transformer};
use vstd::prelude::*;

use crate::errors::Error;
use crate::native::module::texts;

verus! {

/// A guest source transpiler.
pub trait Transpiler {
    /// Turns the source of a named module into JavaScript.
    fn transpile(&self, name: &str, source: &str) -> Result<String, Error>;
}

/// An oxc-backed guest source transpiler.
#[derive(Clone, Copy, Default)]
pub struct OxcTranspiler;

/// What stands behind the last occurrence of a character.
pub open spec fn after_last(text: Seq<char>, c: char) -> Option<Seq<char>>
    decreases text.len(),
{
    if text.len() == 0 {
        None
    } else if text.last() == c {
        Some(Seq::empty())
    } else {
        match after_last(text.drop_last(), c) {
            Some(rest) => Some(rest.push(text.last())),
            None => None,
        }
    }
}

/// The last component of a path with slashes.
pub open spec fn file_name(path: Seq<char>) -> Seq<char> {
    match after_last(path, '/') {
        Some(name) => name,
        None => path,
    }
}

/// The extension of a file name: what stands behind its last dot, if anything stands before it.
pub open spec fn extension(name: Seq<char>) -> Option<Seq<char>> {
    match after_last(name, '.') {
        Some(rest) if rest.len() + 1 < name.len() => Some(rest),
        _ => None,
    }
}

/// Whether every platform reads a path alike: it has no backslash, it starts with no drive and no
/// server, and it ends in a file name.
pub open spec fn is_portable(path: Seq<char>) -> bool {
    &&& !path.contains('\\')
    &&& !(path.len() >= 2 && path[1] == ':')
    &&& !(path.len() >= 2 && path[0] == '/' && path[1] == '/')
    &&& file_name(path).len() > 0
    &&& file_name(path) != "."@
}

/// Whether a path has the extension of a TypeScript file.
pub open spec fn names_typescript(path: Seq<char>) -> bool {
    match extension(file_name(path)) {
        Some(extension) => extension == "ts"@ || extension == "mts"@ || extension == "cts"@
            || extension == "tsx"@,
        None => false,
    }
}

/// What oxc's parser reports for a module: whether it gave up, and the messages of its errors.
pub uninterp spec fn parsed(name: Seq<char>, source: Seq<char>) -> (bool, Seq<Seq<char>>);

/// What oxc makes of a module that parses: the messages of the errors of its transformer, and the
/// code that it prints.
pub uninterp spec fn emitted(name: Seq<char>, source: Seq<char>) -> (Seq<Seq<char>>, Seq<char>);

/// Texts with a semicolon and a space between them.
pub open spec fn listed(messages: Seq<Seq<char>>) -> Seq<char>
    decreases messages.len(),
{
    if messages.len() == 0 {
        Seq::empty()
    } else if messages.len() == 1 {
        messages[0]
    } else {
        listed(messages.drop_last()) + "; "@ + messages.last()
    }
}

/// `oxc::span::SourceType::from_path`, with its default where it fails, and `is_typescript`: whether
/// a path has the extension of a TypeScript file. Of a path that platforms read differently nothing
/// is claimed.
#[verifier::external_body]
fn has_typescript_extension(name: &str) -> (r: bool)
    ensures
        is_portable(name@) ==> r == names_typescript(name@),
{
    SourceType::from_path(name).unwrap_or_default().is_typescript()
}

/// `oxc::parser::Parser::parse` on a module: whether the parser gave up, and the messages of the
/// diagnostics of error severity. They depend on the name and the source alone. Of a path that
/// platforms read differently nothing is claimed.
#[verifier::external_body]
fn parse(name: &str, source: &str) -> (r: (bool, Vec<String>))
    ensures
        is_portable(name@) ==> (r.0, texts(r.1@)) == parsed(name@, source@),
{
    let allocator = Allocator::default();
    let source_type = SourceType::from_path(name).unwrap_or_default();
    let parsed = Parser::new(&allocator, source, source_type).parse();
    (parsed.panicked, parsed.diagnostics.errors().map(ToString::to_string).collect())
}

/// Whether oxc may say of a path whether it has the extension of a TypeScript file.
pub closed spec fn may_detect(name: &str, typescript: bool) -> bool {
    call_ensures(has_typescript_extension, (name,), typescript)
}

/// Whether oxc's parser may report so for a module.
pub closed spec fn may_parse(name: &str, source: &str, report: (bool, Vec<String>)) -> bool {
    call_ensures(parse, (name, source), report)
}

/// Whether oxc may make so much of a module that parses.
pub closed spec fn may_emit(name: &str, source: &str, made: (Vec<String>, String)) -> bool {
    call_ensures(emit, (name, source), made)
}

/// `oxc::transformer::Transformer::build_with_scoping` on the program and the scopes of a module, as
/// `oxc::parser::Parser` and `oxc::semantic::SemanticBuilder` give them, and
/// `oxc::codegen::Codegen::build` on what comes out: the messages of the diagnostics of error
/// severity and the code. They depend on the name and the source alone. The module must have parsed
/// without errors. Of a path that platforms read differently nothing is claimed.
#[verifier::external_body]
fn emit(name: &str, source: &str) -> (r: (Vec<String>, String))
    requires
        exists|messages: Vec<String>|
            #![trigger may_parse(name, source, (false, messages))]
            messages@.len() == 0 && may_parse(name, source, (false, messages)),
    ensures
        is_portable(name@) ==> (texts(r.0@), r.1@) == emitted(name@, source@),
{
    let allocator = Allocator::default();
    let source_type = SourceType::from_path(name).unwrap_or_default();
    let mut program = Parser::new(&allocator, source, source_type).parse().program;
    let built = SemanticBuilder::new().with_enum_eval(true).build(&program);
    let scoping = built.semantic.into_scoping();
    let transformer = Transformer::new(&allocator, Path::new(name), &TransformOptions::default());
    let diagnostics = transformer.build_with_scoping(scoping, &mut program).diagnostics;
    let messages = diagnostics.errors().map(ToString::to_string).collect();
    (messages, Codegen::new().build(&program).code)
}

/// Lists messages with a semicolon and a space between them.
pub fn list_messages(messages: &Vec<String>) -> (r: String)
    ensures
        r@ == listed(texts(messages@)),
{
    let mut text = String::new();
    let mut i: usize = 0;
    assert(texts(messages@).take(0) =~= Seq::empty());
    while i < messages.len()
        invariant
            i <= messages@.len(),
            text@ == listed(texts(messages@).take(i as int)),
        decreases messages@.len() - i,
    {
        proof {
            let next = texts(messages@).take(i + 1);
            assert(next.drop_last() =~= texts(messages@).take(i as int));
            assert(next.last() == messages@[i as int]@);
        }
        if i > 0 {
            text.append("; ");
        }
        text.append(messages[i].as_str());
        proof {
            if i == 0 {
                assert(text@ =~= messages@[0]@);
            }
        }
        i += 1;
    }
    assert(texts(messages@).take(i as int) =~= texts(messages@));
    text
}

/// Decides whether a parsed module goes on: it does not if the parser gave up or reported errors.
pub fn check_parsed(gave_up: bool, messages: &Vec<String>) -> (r: Result<(), Error>)
    ensures
        r is Ok <==> !gave_up && messages@.len() == 0,
        r matches Err(error) ==> error is Transpile && error.details() == Some(
            (listed(texts(messages@)), None::<Seq<char>>),
        ),
{
    if gave_up || messages.len() > 0 {
        Err(Error::transpile(list_messages(messages).as_str()))
    } else {
        Ok(())
    }
}

/// Decides what a transformed module becomes: its code, unless the transformer reported errors.
pub fn check_emitted(messages: &Vec<String>, code: String) -> (r: Result<String, Error>)
    ensures
        messages@.len() == 0 ==> r == Ok::<String, Error>(code),
        messages@.len() > 0 ==> (r matches Err(error) && error is Transpile && error.details()
            == Some((listed(texts(messages@)), None::<Seq<char>>))),
{
    if messages.len() > 0 {
        Err(Error::transpile(list_messages(messages).as_str()))
    } else {
        Ok(code)
    }
}

/// Whether a result is what a module of a portable name is transpiled to: source that is not
/// TypeScript is kept, and TypeScript is parsed, transformed and printed, or refused with the
/// messages of the first of these that reports errors.
pub open spec fn transpiled(
    name: Seq<char>,
    source: Seq<char>,
    result: Result<String, Error>,
) -> bool {
    if !names_typescript(name) {
        result matches Ok(code) && code@ == source
    } else if parsed(name, source).0 || parsed(name, source).1.len() > 0 {
        refuses(parsed(name, source).1, result)
    } else if emitted(name, source).0.len() > 0 {
        refuses(emitted(name, source).0, result)
    } else {
        result matches Ok(code) && code@ == emitted(name, source).1
    }
}

/// Whether an error lists the messages of a stage that refused a module.
pub open spec fn refuses(messages: Seq<Seq<char>>, result: Result<String, Error>) -> bool {
    result matches Err(error) && error is Transpile && error.details() == Some(
        (listed(messages), None::<Seq<char>>),
    )
}

/// Whether a result is what oxc's stages make of a module of any name, given what they report for
/// it: source that is not TypeScript is kept, and TypeScript is parsed, transformed and printed, or
/// refused with the messages of the first of these that reports errors.
pub open spec fn staged(name: &str, source: &str, result: Result<String, Error>) -> bool {
    ||| may_detect(name, false) && (result matches Ok(code) && code@ == source@)
    ||| may_detect(name, true) && exists|report: (bool, Vec<String>)| #[trigger]
        may_parse(name, source, report) && if report.0 || report.1@.len() > 0 {
            refuses(texts(report.1@), result)
        } else {
            exists|made: (Vec<String>, String)| #[trigger]
                may_emit(name, source, made) && if made.0@.len() > 0 {
                    refuses(texts(made.0@), result)
                } else {
                    result == Ok::<String, Error>(made.1)
                }
        }
}

impl Transpiler for OxcTranspiler {
    fn transpile(&self, name: &str, source: &str) -> (r: Result<String, Error>)
        ensures
            is_portable(name@) ==> transpiled(name@, source@, r),
            staged(name, source, r),
    {
        let typescript = has_typescript_extension(name);
        assert(may_detect(name, typescript));
        if !typescript {
            return Ok(source.to_owned());
        }
        let report = parse(name, source);
        assert(may_parse(name, source, report));
        match check_parsed(report.0, &report.1) {
            Ok(_) => {}
            Err(error) => {
                return Err(error);
            }
        }
        assert(report == (false, report.1));
        let made = emit(name, source);
        assert(may_emit(name, source, made));
        let (messages, code) = made;
        check_emitted(&messages, code)
    }
}

/// JavaScript is never changed: a portable name without an extension of TypeScript keeps its source.
pub proof fn law_javascript_is_kept(name: Seq<char>, source: Seq<char>, result: Result<
    String,
    Error,
>)
    requires
        !names_typescript(name),
        transpiled(name, source, result),
    ensures
        result matches Ok(code) && code@ == source,
{
}

} // verus!
