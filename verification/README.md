# tree_shaker

Verified core of a JavaScript tree shaker.

- `src/entity/dep.rs`: dependency nodes and the set of referred nodes; the
  analyzer and the transformer record and query it.
- `src/entity/`: abstract values (literals, unknown values, unions,
  functions), what consuming them refers, and the tests on unknown values.
- `src/entity/utils.rs`: folding evaluations, booleans from tests, and
  whether an assignment may or may not happen.
- `src/nodes/`: per-node keep-or-drop decisions of the transformation, over
  what transforming the node's parts gave.
- `src/lib.rs`, `src/pipeline.rs`: `tree_shake`, which parses, minifies and
  prints through oxc.
- `app/lib.rs`: conversions from oxc syntax nodes to the plain values the
  library keys its records by.
