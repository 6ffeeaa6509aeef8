# singe

Verified decoding and bookkeeping for NVIDIA's CUPTI profiling interface and the
cuRAND random number library.

The library (`src/`) holds the logic that sits between the C interfaces and their
users, each function with a contract proved by Verus:

- `cupti::activity`: activity buffer layouts, the process-wide callback registry
  (who owns the registration, what buffer to hand out, which release may clear it),
  in-memory collection of completed buffers, flush targets.
- `cupti::activity::record`: every activity record kind, decoded from the fields
  CUPTI fills, and the dispatch from a record's kind to its decoded form.
- `cupti::activity::attribute`: how each activity attribute is stored, written and
  read back.
- `cupti::event`: sizing the arrays CUPTI fills, reading string attributes, and
  decoding event, event group, event domain, metric and device attributes.
- `cupti::callback`: callback payloads read by domain, subscriber parameters, enabled
  callbacks and supported domains.
- `cupti::types`, `cupti::error`: identifiers, enums with their C values, flag
  sets, configurations, statuses.
- `curand`: statuses and errors, generator targets, direction vector and scramble
  constant tables.
- `version`: packed library versions.

`app/` holds what the library does not: error types with `Display` and
`std::error::Error`, the registry behind a process-wide lock, and the
floating-point reading of metric values.
