# pyswc

Python bindings for JavaScript and TypeScript syntax trees parsed by
[swc](https://swc.rs).

The verified library (`src/`, checked with Verus) holds:

- `ast/`: the syntax tree as plain values, one type per swc node kind, with
  verified `Clone` impls;
- `typeinfo`, `expr`, `pat`, `prop`, `function`, `class`, `stmts`, `decl`,
  `jsx`: the lowered tree that bindings hand out node by node, and the
  lowering functions, each proved to produce exactly the lowered form
  described by a `lowers_*` specification;
- `choice`: the flat records (one field per alternative, exactly one set)
  for choice nodes such as member properties, callees and loop heads;
- `literal`: the accessors of literals;
- `script`: `JavaScriptFile`, which decodes and parses a source file with
  swc behind small trusted wrappers.

`app/` is the Python side: the `pyo3` classes, the move of swc's tree into
the library's types (`mirror.rs`), and the conversions that build Python
objects from lowered nodes.
