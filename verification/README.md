# esgraph

Endpoint Security telemetry as a property graph. The library (`src/`) holds
the logic, each function with a contract checked by Verus:

- `events`, `config`, `error` — the event-name registry, configuration
  resolution (group order, first occurrence wins) and validation.
- `model` — process, file and socket nodes, typed timestamped edges, and
  per-event analyst details, each with a mathematical view.
- `esf` — Endpoint Security messages as plain values, the `es_event_type_t`
  codes, normalisation of a message into nodes, edges and details, and the
  collector's set-up decisions (subscription codes, muted prefixes, client
  error hints, runtime version).
- `cypher`, `ingest`, `store` — Cypher literals, the statements that upsert
  nodes and append edges for a batch, count queries and result readers.
- `writer` — the batching writer's decisions as a state machine.
- `text`, `json` — decimal, hexadecimal, whitespace and JSON text helpers.

`app/` is the `esgraphd` command line: TOML and JSON loading, the embedded
database, the writer thread and the live macOS client, all driving the
library. `tests/` exercises the library on concrete values.
