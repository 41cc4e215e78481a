# duckscript_sdk (verified subset)

`src/` is the verified library:

- `utils::exec` — the decisions of launching a process and collecting its
  output, as step functions (`spawn`, `exec`) from the last event to the next
  action, and `create_command`, the launch plan for `arguments[start_index..]`.
- `utils::text` — decimal rendering of `usize` and `i32` parsing, against
  spec functions; `utils::pckg` — qualified command names.
- `types::command` — alias commands (a script run in a scope of its own) and
  documentation-only commands; `types::handles` — the values held by handle;
  `types::result` — what a command answers.
- `commands` — the array length, exit, parent directory, home directory,
  OS name and FTP download commands.

`app/` holds the `duckscript::types::command::Command` impls, the process
runner that drives the step functions, and the runtime services that the
embedding SDK provides.
