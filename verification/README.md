# qol_cli

The decisions behind `qol`, the developer console and setup tool of the
qol-tray workspace, written in Verus with their contracts proved.

- `src/` is the verified library: the console's state machine (keys,
  pages, quit and reload prompts), the dashboard's status lines and
  accents, the sandbox list and its stop sequence, the doctor panel, the
  disk report, the reload hand-off, cargo's progress and JSON output, the
  setup inputs, and the text helpers they share. Calls into `toml`,
  `serde_json`, `ansi-to-tui`, `ratatui` and `libc` stand behind small
  trusted wrappers whose contracts are documented where they are declared.
- `tests/` runs the library on concrete values.
- `app/` is the program around it: the terminal, the keyboard, HTTP, files
  and processes. It hands the library plain values and performs what the
  library returns.
