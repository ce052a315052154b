# palingenesis

An agent resurrection daemon: it watches the sessions of AI coding
assistants, classifies why a session stopped, and can pause, resume or start
sessions on request from the command line, a Unix control socket, an HTTP API
or chat bots (Discord and Slack).

## Layout

- `src/` is the library, written in Verus. Every function there is
  verified, and each states in `requires`/`ensures` what it does, except
  the few that only read the clock, where nothing can be promised; calls
  into outside crates (hex, ed25519-dalek, hmac, sha2, regex, uuid, chrono,
  dirs, nix, serde_json) and into std where vstd says nothing go through
  small trusted wrappers whose contracts say what the sources document.
  - `cli` — the command-line grammar.
  - `config` — the configuration model, defaults, environment overrides,
    validation and paths.
  - `daemon` — daemon state (pause/resume, sessions, reload), PID file,
    signals and shutdown.
  - `ipc` — the line protocol of the control socket, both ends.
  - `http` — health, status and control replies of the HTTP API.
  - `bot` — bot command parsing, authorization, webhook signatures
    (Ed25519 for Discord, HMAC-SHA256 for Slack) and command execution.
  - `monitor` — session files, frontmatter state, stop-reason
    classification, assistant detection, file and process watching.
  - `notify` — notification events, their texts and dispatch.
  - `mcp` — JSON-RPC message processing for the MCP server.
  - `opencode` — the OpenCode process and its HTTP API.
  - `console` — what the command line prints.
- `tests/` runs the library on concrete values.
- `app/` is the program: argument handling, sockets, HTTP serving, files,
  signals and serialisation, calling the library for every decision.
