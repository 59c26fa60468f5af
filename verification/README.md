# apto

A typed, validated settings framework, and the settings of a stream-recording
application built on it, verified with Verus.

## Layout

- `src/` — the verified library.
  - `config_type.rs`, `validator.rs`, `optionality.rs`, `error.rs`: the `ConfigType`
    and `ConfigValidator` traits, the `Required`/`Optional` markers and `ConfigError`.
    Every rule of a setting type (read, parse, display, validate, reset) is stated as a
    spec function over the values' deep views and proved of each implementation.
  - `types/`: the built-in setting types (`Text`, `Bool`, the integer types, `List`,
    `ArrayOf`, `TableList`) with their laws (`lemma_*_reads_back`).
  - `helpers.rs`, `fields.rs`, `strings.rs`: parsing helpers, `apply_value` and
    `validate_field`, and the string operations they are built from.
  - `config/`: the application's settings — `settings.rs` (the schema: `Config`,
    `ConfigKey`, `ConfigCategory`, getters, `set_value`, `reset_key`, `validate`, and
    the laws relating them), `values.rs` and `types/` (durations and file sizes),
    `validators.rs`, and `listing.rs` (the rows of the settings table and its Markdown
    documentation, drawn with `tiny_table`).
- `tests/` — the tests, run against the compiled library.
- `app/` — what stays outside the verified library: the TOML settings file (serde),
  the process-wide settings store, the terminal drawing of the settings table, and the
  floating-point setting types.
