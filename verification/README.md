# component_name_casing

A verified lint rule for the names of Vue component definitions: the `name`
property of an object and the first argument of a `.component(..)` call.

- `src/chars.rs` — the character and string operations of std the rule uses.
- `src/casing.rs` — the casing predicates, the kebab-case to PascalCase
  conversion, and the laws relating them.
- `src/span.rs` — source ranges.
- `src/ast.rs` — the parts of the syntax tree the rule reads, as plain values.
- `src/rule.rs` — the rule: which names it reports and the fix it offers.
- `app/` — conversion from the oxc syntax tree and JSON configuration, and
  from reports to oxc diagnostics.
