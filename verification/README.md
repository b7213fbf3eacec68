# dayrecord

DayRecord records what a person works on — the active window, typed text,
the text on screen (read through the accessibility tree, never from pixels)
— and gives AI agents a sanitized view of it through MCP tools and a CLI.

This crate holds DayRecord's logic, written in Verus and verified.

## Layout

- `src/` — the verified library
  - `text` — strings as `Seq<char>`: Unicode whitespace, trimming,
    substring search, decimal notation
  - `uia_common` — URL heuristic, browser-noise labels, fragment
    collection, the labeled on-screen snapshot and its length cap
  - `screen_text` — the bounded accessibility-tree walk (UI Automation and
    AX): which node text is kept, when a subtree is skipped, where the
    browser address comes from, when the walk stops
  - `keyboard` — Windows virtual-key and macOS key-code classification,
    key-event buffers
  - `base64` — the secret-file encoding, with its round-trip law
  - `secret` — the in-memory secret store and the API-key choice
  - `storage` — schema migration plan, which sessions are stored, the
    full-text query, day statistics, settings kept across a wipe
  - `settings` — stored flags, API-key input, the background-job gate,
    summary follow-up messages, tray menu actions
  - `llm` — DeepSeek client configuration, the no-key guard, reply handling
  - `mcp` — resource routing, control-tool replies, autostart policy
  - `cli` — command dispatch, output format, status report
  - `doctor` — reading MCP probe output (JSON lines through `serde_json`)
    and composing the diagnosis
  - `platform` — platform handles, window labels, the wall clock (read
    without panicking) and UTC dates (`chrono`)
- `tests/` — tests run against the compiled library
- `app/` — the `dayrecord` program: argument parsing (clap), SQLite
  (rusqlite), the keychain, the clipboard, HTTP (reqwest), the MCP stdio
  transport (rmcp) and child processes. It links the capture runtime and
  the context/export crates of the DayRecord workspace (`dayrecord_core`,
  `dayrecord_runtime`), which live outside this crate.
