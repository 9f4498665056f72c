# neon (bridge tooling, verified core)

`src/` is a Verus-verified library holding the decisions and renderings of
the Neon experimental-bridge tooling:

- `bridge::health` — health samples, their flags, the notification body,
  the once-per-day notification memory, the monitor's tick decision and the
  heartbeat record;
- `bridge::looking_glass` — Looking Glass launch arguments, the launch
  decision and the client handle;
- `bridge` — the `neon stream` stub and the capability snapshot;
- `daemon::tray` — the tray menu layout, labels, menu ids, the rows the GUI
  renders and the id→command route table (with a proof that route ids are
  unique);
- `cli::stream` — the `neon stream status` record and its text block, and the
  no-argument dispatch;
- `cli::update` — `--cdm-source` parsing (through the `url` crate) and the
  re-patch summary;
- `cli::command` — the command model and the binary's answer to it;
- `text` — decimal rendering and joining, with their lemmas.

`app/` is the binary and the I/O around the library: clap parsing, the
health thread, spawning `looking-glass-client`, JSON output and the
`tray-icon` GUI.

`tests/` exercises the library on concrete values.
