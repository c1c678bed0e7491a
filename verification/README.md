# mcpg-operator-api

Types and rules of the `mcpg.dev/v1alpha1` custom resources served by the
MCPG Kubernetes operator, written in Verus: the rules are stated as
`requires` / `ensures` contracts and proved.

## Layout

- `src/` — the verified library.
  - `v1alpha1/` — one module per kind (gateway, plugin, plugin set,
    revocation list, cluster, route, plugin mirror, tenant, server): the
    spec and status types, the served definition of each kind, and the
    rules over them (coordination-block rendering and the plaintext
    transport guard, mirror rewriting, tenant allowlists and namespace
    overlap, route chain merging, server endpoints, revocation hash
    normalisation).
  - `conditions` — `metav1.Condition`-shaped status conditions and
    `set_condition`, with its laws (what a recorded condition reads back,
    what it leaves alone, idempotence, distinct types).
  - `json`, `string_map` — the JSON documents and string-keyed maps that
    specs carry, each with a mathematical model and distinct keys as a type
    invariant.
  - `schema_helpers` — the OpenAPI fragments for fields the API server
    must not validate.
  - `text`, `ordered` — string and ordering facts the rules rest on.
  - `clock` — timestamps and the system clock.
- `app/` — the wire shapes: copies of the types that derive serde,
  schemars and kube's `CustomResource`, with `From` conversions to and from
  the library's types, and the schemars functions built on the library's
  schema fragments.
- `tests/` — tests of the library.
