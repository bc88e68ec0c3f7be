# rup

A command-line uploader for anonymous file hosting services (litterbox,
temp.sh, uguu.se, bashupload), built as a verified library plus a thin
program around it.

- `src/` is the library, verified with Verus: service selection, the option
  table of the configuration, expansion of file arguments, the checks each
  service applies to files, the service named by a trailing argument
  (`rup * temp_sh`), the decision to cancel, ask or upload, the
  configuration menu's states and choices, the status report rows, and every
  message the program shows. `src/laws.rs` states the properties that hold
  across these functions.
- `app/` is the program: argument parsing (clap), the configuration file
  (serde and toml), terminal menus (dialoguer), progress bars (indicatif) and
  the network transfers (reqwest, tokio).
- `tests/` runs the library on concrete values.
