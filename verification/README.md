# codex-rc

Remote control for the Codex app-server from a phone browser: a small HTTP and
WebSocket server relays prompts, replies, approvals and interrupts from browser
connections to `codex app-server` (JSON-RPC over stdio), and relays the
app-server's streamed turn events back to the browser connection that owns the
thread.

Layout:

- `src/` — the verified library (Verus):
  - `json.rs` — JSON values as plain data, and how fields are read and built;
  - `ids.rs` — request ids;
  - `protocol.rs` — the JSON-RPC requests sent to the app-server and the handshake;
  - `channels.rs` — the messages between browser connections and the Codex client;
  - `session.rs` — the Codex client's decisions: requests, responses,
    notifications, approval requests, thread ownership;
  - `browser.rs` — a browser connection's decisions: reading browser messages,
    routing events, the JSON sent to the browser;
  - `banner.rs` — the announced address and the start-up banner;
  - `laws.rs` — properties that span several functions (routing, continuity,
    request bookkeeping, disconnects).
- `app/` — the program around it: the process, the stdio pipes, the HTTP and
  WebSocket server, JSON text parsing and printing, logging.
- `tests/` — tests of the library.
