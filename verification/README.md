# pruner languages

The rules by which a source indexer decides what a file is: its language, from
the extension of its file name; whether it is a test file, from its directory
components, its file name and stem, and its text; and whether a directory or a
file is skipped.

- `src/text.rs`: character-level operations (prefix, suffix, infix, equality,
  separator normalisation), each proved against its `Seq<char>` meaning.
- `src/paths.rs`: the components and file name of a path as `std::path`
  computes them, behind trusted wrappers; the extension and stem of a file
  name, verified against their documented definitions.
- `src/languages.rs`: the rules as spec functions and the verified functions
  that implement them.
- `src/laws.rs`: properties across the rules (skipped files have no language,
  test directories are never skipped, every language is detectable,
  test directories among concatenated components).
- `app/lib.rs`: the same functions over `std::path::Path`.
