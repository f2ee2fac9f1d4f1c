# client_sdk

Data structures of the Lantern chat platform — users, parties, rooms, messages, embeds,
permissions, preferences, authentication tokens and gateway messages — and a model of
TypeScript types used to describe them, written in Verus with their behaviour stated in
`requires`/`ensures` contracts and proved.

Layout:

- `src/util/` — fixed-size and thin strings, JSON values, preference maps, decimal digits,
  text helpers.
- `src/models/` — the object models; `gateway/` holds intents, commands, events and the
  server/client messages with their opcodes.
- `src/ts_bindgen/` — TypeScript type descriptions, their equality, union/intersection
  building, flattening, and the cleanup (`unify`) of nested unions; `derive.rs` decides what
  deriving a definition registers for a struct or an enum, from a description of its fields,
  variants, serde names and tag style.
- `src/ext.rs` — declarations of outside types used by the models.
- `tests/` — tests run against the compiled library.
- `app/` — JSON conversion, seeded hash builders and the float-valued avatar roundness.

Properties that span several functions are stated as `law_*` proof functions next to the
functions they relate.
