# zed_vision_sync

The Vision Pro sync service of the Zed editor, with its decisions verified
by Verus.

- `src/` is the verified library:
  - `text` — decimal formatting and the facts about decimal digits;
  - `network` — the dotted-quad IPv4 grammar, the /24 segment shown by the
    panel, and the panel's network information;
  - `config` — the service configuration (host name from `hostname`);
  - `connection`, `registry` — connection records, the 60-second timeout and
    the registry of live connections (add, touch, remove, sweep);
  - `protocol` — the WebSocket messages and the reply to each (ids from
    `uuid`);
  - `server` — the discovery answer and the steps of a WebSocket session;
  - `service` — the start/stop state machine and the work each step asks for;
  - `ui` — the panel's and the status button's state and view model.
- `app/` does the I/O: JSON encoding with serde, the warp and
  tokio-tungstenite servers, the threads, and the local address lookup.
- `tests/` runs the library on concrete values.
