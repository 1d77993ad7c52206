# lib — cleaning a crate's syntax tree into its documentation, verified

A documentation generator walks a crate's syntax tree and turns every item
into a simpler, self-contained form: names as strings, paths resolved to
the items they name, documentation comments stripped of their markers and
merged into one `doc` attribute. This library is that conversion, written in
Verus: every function carries a contract, and Verus proves the code against
it.

Layout of `src/`:

- `text.rs` — whitespace, trimming, decimal numerals, the removal of comment
  markers and the line-by-line clean-up of documentation comments.
- `ast.rs`, `doctree.rs` — the input: the parts of the syntax tree and of the
  tree of collected items that the conversion reads, as plain values.
- `context.rs` — what the compiler knows: the resolver's map from path nodes
  to definitions and the crate store's exported paths.
- `clean.rs` — the `Clean` trait and its lifting over lists, boxes, options
  and spanned nodes.
- `attrs.rs` — attributes, literals, the merging of documentation, the
  crate's link name.
- `types.rs` — types and declarations, the resolution of type paths, the
  names that argument patterns give.
- `items.rs` — methods, traits, functions, structures, enumerations, type
  definitions, statics, implementations, imports, modules and the crate.
- `copies.rs` — what it means for two values of the model to be the same,
  and `Clone` for the types that are copied.

The tests under `tests/` run the library on concrete inputs.
