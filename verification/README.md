# GuestJS

Guest JavaScript and TypeScript modules in a Rust host, with the rules of the library verified by
Verus.

- `src/` is the verified library. It decides which module an import of a guest leads to
  (`registry`, `host`, `native`), what a host module, class or object becomes in a guest (`host`),
  when an execution must stop and how its result is reported (`execution`), how values cross the
  boundary (`marshal`, `handle`), what a module source is turned into (`transpiler`), what a runtime
  and a guest are made of (`runtime`), and how streams between host and guest behave (`llrt`). The
  calls into `rquickjs`, `oxc`, `bytes`, `serde_json` and `tokio-util` that it makes stand behind
  small trusted functions, each with a comment that says what is believed of it.
- `app/` connects the library to the engine: it enters contexts, runs guest code, waits for promises
  and holds the implementations of the traits of other crates. The modules and initializers of LLRT
  come from the embedder.
- `tests/` runs the library with the real crates linked.

The library is generic in what only the engine knows: the callbacks of host functions, the
definitions of native modules and the values of a guest are type parameters, and an operation that
needs the engine takes it as a closure or lists the steps that the engine carries out. Where the
order of the calls matters, what the closure works on is passed from one call to the next, and the
contract says which calls it went through (`steps`).
