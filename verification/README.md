# tauri_bundler

The settings of a desktop application's bundling run, and the Rust part of its
environment report, written in Verus with their rules stated as contracts and proved.

- `src/package_type.rs`: the package types, their short names, build priorities and the
  types each operating system supports.
- `src/settings.rs`: package, bundle and per-platform settings, the settings builder, and
  the rules that derive the bundler's choices (package types, architecture, external
  binary names, resource selection, descriptive texts).
- `src/platform.rs`, `src/category.rs`, `src/error.rs`: plain-value configuration
  choices, application categories, the error type.
- `src/cargo_info.rs`: which version of a crate a project's `Cargo.toml` and `Cargo.lock`
  name, whether a newer release exists, and the report lines.
- `src/text.rs`: the meaning of the text operations used above, with proved
  implementations.
- `app/`: file, network and process I/O, terminal colours, and the conversions from the
  configuration crates' types.
