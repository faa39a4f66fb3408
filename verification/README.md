# alani_cognition

Bounded cognition contracts, verified with Verus: model metadata and a
fixed-capacity model registry, inference budgets, requests, results and
evidence with a deterministic host-mode engine, knowledge records with
provenance in a fixed-capacity store with filtered, ranked retrieval, and a
deterministic planner that emits authorization-aware plans.

Layout:

- `src/lib.rs` — error taxonomy, data classes, redaction states, component
  identity and the catalog.
- `src/model.rs` — model kinds, states, capability bits, model metadata,
  selection, and `ModelRegistry`.
- `src/engine.rs` — trace context, budgets, usage, execution context,
  evidence, requests, results, the `CognitionEngine` trait and the mock engine.
- `src/planner.rs` — goals, steps, plans, and the deterministic planner.
- `src/retrieval.rs` — provenance, records, queries, hits, results, and
  `KnowledgeStore`.
- `src/text.rs` — exact comparison of UTF-8 strings.

Every validation function states, as its specification, which error it
answers for which input; collections state their contents as sequences and
keep an invariant (`wf`) that their operations preserve. Public proof
functions next to the types state the laws that span operations.
