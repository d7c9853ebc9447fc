# compress_iceberg

Two small pieces of a query engine's storage layer, written in Verus with
their contracts proved:

- `src/compress_algorithms.rs`: the compression algorithms, their file
  extensions, and their detection from a path's extension or from a file's
  magic bytes. `src/path.rs` reads a path's extension as `std::path` does on
  Unix; `src/text.rs` compares strings.
- `src/predicate.rs`: the translation of a filter expression
  (`src/remote_expr.rs`) into an unbound Iceberg predicate
  (`src/iceberg_expr.rs`), where anything that cannot be translated is
  answered with `AlwaysTrue`.

Each module states its laws as public proof functions (`lemma_*`).

`app/` holds what needs outside crates: the serde form of
`CompressAlgorithm`, and the conversion of built predicates into the
`iceberg` crate's values. `tests/` exercises the library on concrete values.
