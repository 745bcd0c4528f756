use guestjs::errors::Error;
use guestjs::transpiler::{
    check_emitted, check_parsed, list_messages, OxcTranspiler, Transpiler,
};

fn transpile(name: &str, source: &str) -> Result<String, Error> {
    OxcTranspiler.transpile(name, source)
}

#[test]
fn types_are_taken_out_of_typescript() {
    assert_eq!(
        transpile("a.ts", "const x: number = 1; export { x };").unwrap(),
        "const x = 1;\nexport { x };\n",
    );
    assert_eq!(
        transpile("dir.d/b.mts", "export const y = 2 as number;").unwrap(),
        "export const y = 2;\n",
    );
}

#[test]
fn a_colon_in_a_name_changes_nothing() {
    assert_eq!(
        transpile("guest:module.ts", "export const z: number = 3;").unwrap(),
        "export const z = 3;\n",
    );
    assert_eq!(transpile("guest:module", "const z: number").unwrap(), "const z: number");
}

#[test]
fn enums_become_objects() {
    let code = transpile("c.ts", "export enum Kind { First = 1, Second }").unwrap();

    assert!(code.contains("Kind"));
    assert!(!code.contains("enum"));
}

#[test]
fn javascript_is_left_alone() {
    let source = "export const x  =  1 // odd";

    assert_eq!(transpile("a.js", source).unwrap(), source);
    assert_eq!(transpile("a", source).unwrap(), source);
    assert_eq!(transpile("a.mjs", "not even ( javascript").unwrap(), "not even ( javascript");
}

#[test]
fn broken_typescript_is_an_error() {
    match transpile("a.ts", "const = ;") {
        Err(Error::Transpile { message, .. }) => assert!(!message.is_empty()),
        other => panic!("unexpected {other:?}"),
    }
}

#[test]
fn messages_are_listed_behind_one_another() {
    let messages = vec!["one".to_owned(), "two".to_owned()];

    assert_eq!(list_messages(&messages), "one; two");
    assert_eq!(list_messages(&Vec::new()), "");
    assert_eq!(
        check_parsed(false, &messages).unwrap_err().text(),
        "transpile error: one; two",
    );
    assert!(check_parsed(true, &Vec::new()).is_err());
    assert!(check_parsed(false, &Vec::new()).is_ok());
    assert_eq!(check_emitted(&Vec::new(), "code".to_owned()).unwrap(), "code");
    assert!(check_emitted(&messages, "code".to_owned()).is_err());
}
