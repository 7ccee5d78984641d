# motolii_doc

The document model of a motion-graphics editor, written in Verus: composition
settings, tracks of clips and groups, vector recipes with their path
operators, the structural checks a document passes before it is stored, and
the inventory of its asset references.

## Layout

- `src/` — the verified library.
  - `float`, `ids`, `time`, `arith`, `order`, `text`: plain values (floats held
    by their bits, identifiers, exact rational times, gcd, string order,
    decimal paths).
  - `param`, `param_map`, `expect`: parameters, the sorted map of named
    parameters, and the constraints of each parameter slot.
  - `schema`, `json`, `source_shape`: the schema types, the JSON objects
    carried unread, and the shape rules of a stored clip source.
  - `document`: the document, its registries and its error type.
  - `check_param`, `check_items`, `cycles`, `check_doc`, `asset_uses`,
    `check_assets`: the checks and the asset inventory, each stated as a spec
    function that the code is proved to compute.
  - `laws`: properties that span the checks.
- `tests/` — scenarios run against the compiled library.
- `app/` — the JSON side: stored forms of the schema types with serde, error
  types with messages, and reading and writing JSON text.
