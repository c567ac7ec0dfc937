# atomr-agents-py-bindings (verified core)

The logic of the atomr-agents Python bindings that does not need Python
itself, written in Verus with its contracts proved:

- `src/json.rs` — the JSON model exchanged with Python guests, and the
  reading of JSON text into it (through `serde_json`).
- `src/guest.rs` — the guest factory registry (`(kind, key)` targets and
  tool factories with descriptors).
- `src/harness.rs` — reading step results and termination answers of guest
  loop strategies, termination keys, and harness resolution.
- `src/memory.rs`, `src/skill.rs`, `src/adapters.rs`, `src/eval.rs` — how
  the answers of guest memory, skill, instruction, persona, persona
  reconciler, embedder, store and scorer strategies are read.
- `src/agent.rs`, `src/ctx.rs`, `src/inference.rs` — agent resolution, call
  contexts and their defaults, the mock inference client.
- `src/names.rs`, `src/version.rs`, `src/registry.rs` — name tables,
  semantic versions and artifact publication.
- `src/pipeline.rs`, `src/retrieval.rs`, `src/org.rs`,
  `src/observability.rs`, `src/projection.rs` — the pipeline builder, the
  query expander and sentence filter, organisation units, run events, and
  the JSON documents guests are shown.

`app/lib.rs` is the Python extension around it (pyo3): the process-wide
registry, conversion between Python objects and the JSON model, and the
calls into Python guests.
