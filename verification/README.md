# castle

A minimal Cargo-inspired C++ project manager: it scaffolds, builds, checks,
tests, formats and runs C++ projects with clang (C++23 by default) or CMake.

## Layout

- `src/` — the library, verified with Verus: manifest defaults, build
  configuration (profile, standard, sanitizer, backend), the build plans of
  both backends as lists of steps and the rule by which a plan runs (in
  order, stopping at the first failure), project-root and binary location
  among candidates, source collection over paths modelled as component
  lists, clang version parsing and requirements, project-name validation,
  template rendering, command dispatch, error messages, hints and exit codes,
  the color rule and the terminal lines. `src/laws.rs` states and proves the
  properties that span functions.
- `app/` — the `castle` program around the library: command-line parsing
  (clap), reading `castle.toml` (toml/serde), the file-system and
  environment queries whose answers the library decides on, running the
  planned steps as subprocesses and file writes, writing
  `compile_commands.json` (serde_json), watching `src/` for
  `castle run --watch` (notify), and printing.
- `tests/` — tests of the library on concrete values.
