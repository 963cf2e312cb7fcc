# anyserver

The decision-making core of the AnyServer backend — a self-hosted panel that
runs arbitrary binaries as managed servers — written in Verus and proved
against its contracts.

## Layout

- `src/` — the verified library.
  - Text and numbers: `text`, `words`, `numeric`, `version` (version-aware
    ordering with its total-preorder laws), `sorting` (a stable sort over any
    total preorder), `json` (a JSON value model, the parse of fetched bodies into it, and
    path navigation).
  - Templates and pipelines: `options` (dynamic parameter options),
    `update_check`, `replies` (what fetched replies and command outputs
    mean), `builtin` (the built-in templates and the facts that hold of all of
    them), `varrefs` (the `${name}` references of a text), `types` (the data
    model).
  - Runtimes and tools: `java`, `dotnet`, `detect` (which installations to
    probe and how the runtimes found are ordered), `steamcmd`.
  - Processes: `exec` (how a binary or script is run), `launch` (binary,
    working directory, environment, spawn-failure report), `lifecycle`
    (which requests each state accepts, stop steps, grace period, restart,
    the console buffer), `shutdown` (the graceful stop, the forced kill and
    a fresh start as state machines), `logs` (console log lines, the log writer as a state machine, and
    rotation), `stats`
    (reading `/proc` text).
  - Storage and access: `storage` (identifiers, timestamps, permission
    levels, password migration), `rows` (stored rows to domain values),
    `sftp` (login decisions and path confinement).
  - Calls into `uuid`, `chrono`, `argon2` and std that Verus cannot read sit
    behind small trusted wrappers, each documented with what it claims.
- `tests/` — tests run against the compiled library with the real outside
  crates linked.
- `app/` — the I/O around the library: HTTP requests for update checks and
  options, inspecting a binary on disk, pid files, `/proc` readings, log
  files, runtime discovery, and `supervisor`, which spawns a server's
  process, watches it exit, and drives a graceful stop or a forced kill
  step by step as the library's state machines order.  It asks the library
  what to do and reports back what happened.
