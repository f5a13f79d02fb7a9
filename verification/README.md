# alberto-cli (verified core)

`alberto` is a terminal client for NodeService: streaming gRPC uploads with
idempotent retries, node/tenant/admin operations over NodeManagerService,
connection profiles, and a TUI that previews PDFs in the terminal.

This crate holds the client's logic as a Verus-verified library:

- `src/config.rs` — profiles (kept in name order), connection resolution
  (flag/env > profile > default profile > built-in default), `~` expansion.
- `src/config_cmd.rs` — `config init|list|show`, API-key masking.
- `src/commands.rs` — which NodeManagerService request (and gRPC method)
  each command sends, after its JSON flags are checked.
- `src/client.rs`, `src/table.rs` — monadic replies per output format (with
  `table` columns for lists of nodes), API-key metadata check.
- `src/upload.rs` — upload checks, transfer metadata (a UUID v4
  idempotency key), retry policy and the reply summary.
- `src/download.rs` — download destination and report.
- `src/tui.rs`, `src/pdf.rs` — the browser's state machine (keys, refresh of
  the level shown, download file names that stay in the current directory),
  listings, and the page count read from `pdfinfo`.
- `src/json.rs`, `src/text.rs` — calls into `serde_json`; text helpers.

`app/` is the program around it: argument parsing (clap), files, gRPC (tonic),
the terminal (ratatui) and image scaling.
