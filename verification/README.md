# libretune

Verified core of the LibreTune plugin host and of its Speeduino
build-from-source tooling, written in Verus.

- `src/plugin_system.rs` — permissions, plugin manifests and statistics, and
  the plugin registry (names are unique; a lookup finds the loaded plugin).
- `src/plugin_api.rs` — the host functions exposed to WASM plugins: every
  data-touching call succeeds exactly when the required permission is
  granted; log levels and log lines; the plugin-info JSON.
- `src/agent.rs` — the AI-assistant decisions: settings to provider config and
  status, the enable/acknowledge gate, role mapping of the chat history, and
  the per-action report of an apply request.
- `src/speeduino_build.rs` — tool lookup, release-asset choice, missing-library
  detection in compiler output (through the `regex` crate), sketch-folder
  search, and the core-install, compile-with-retries and upload sessions.
- `src/text.rs` — string helpers with exact specifications.
- `app/` — the unverified shell: processes, files, HTTP, archives, stderr and
  the serde shapes exchanged with the frontend.
