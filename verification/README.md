# pleme-config

Configuration management for services configured through their environment.

- `src/` is the verified library: the configuration records, run modes,
  deployment environments, product-id validation, database-URL reading and
  the decisions of multi-source loading, each with its contract, and the laws
  that relate them (proof functions beside the functions they speak of).
- `app/` loads the records from the process environment (`envy`), from YAML
  files (`config`) and checks them with `validator`; its records carry the
  `serde` and `thiserror` derives and convert to and from the library's.
- `tests/` runs the library on concrete values.
