# autosurgeon (patch application)

Applies changes observed on an automerge document to ordinary Rust values,
verified with Verus.

- `src/model.rs` — a change (`DocPatch`) and the values it carries, as plain data.
- `src/path.rs` — whether a listener's path covers a change's path.
- `src/patch.rs` — the `Patch` and `LeafApply` traits, with their impls for
  strings, integers, boxes and options, and the depth check every handler starts with.
- `src/example.rs` — a nested `Baz { bar: Bar { foo: Foo } }` whose handlers pass a
  change down by key and apply it at the leaves.
- `src/error.rs` — the error types.
- `src/laws.rs` — properties proved across these functions.
- `app/` — conversion from automerge's own patch types, error messages, and
  forwarding through `Mutex` and `RwLock`.
