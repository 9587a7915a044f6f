# freven_vanilla

Vanilla content and gameplay logic for the Freven reference experience,
written in Verus: every function in `src/` carries a contract that Verus
proves.

## Layout

- `src/authoring.rs` — the compiled-profile types and the declaration ledger
  (generated keys are unique per kind; a duplicate names its first and second
  source).
  - `authoring/fixture_compiler.rs`, `authoring/fixtures.rs` — the fixture
    compiler into a single generated content manifest, and the rc10 fixtures.
  - `authoring/source_tree/` — the compiler of the
    `freven.vanilla:blocktypes_v1` source tree (shapes, world properties,
    block types) into the canonical graph files; `tree.rs` compiles a whole
    loaded tree, `driver.rs` holds the per-source steps.
- `src/action_payloads.rs`, `src/wire.rs` — v1 and v2 action payload codecs,
  with round-trip laws.
- `src/actions.rs` — the server break/place handlers as a state machine over
  the world's answers.
- `src/interaction.rs` — the client's per-tick batching of block actions
  (cancelling a place that a later break undoes, holding a lone place back one
  tick).
- `src/humanoid_input.rs`, `src/control.rs` — the humanoid input payload and
  the key-to-input mapping.
- `src/worldgen.rs`, `src/blocks.rs`, `src/storage_ids.rs`, `src/modmsg.rs` —
  flat and visual-validation world plans, block keys, storage-id rules, and
  the mod-message echo.
- `src/text.rs` — text helpers with their specifications.
- `app/` — ordinary Rust around the library: reading the source tree from disk
  with serde/toml, writing the compiled output, error types with `Display`,
  and the floating-point targeting checks.
- `tests/` — tests of the library.
