# wsrpc

A websocket RPC client and server (a browser page that pings and echoes
through a server), with its decision logic as a verified library.

- `src/` — the library, verified with Verus: the client's websocket byte
  stream (`session`), the page's state and the requests it starts (`model`),
  the server's answers (`service`), the logger's filter and line format
  (`level`, `logger`), and properties of the whole exchange (`protocol`).
- `app/` — the server program and the browser client's plumbing: sockets,
  RPC transports, the page's HTML and the console, driving the library.
- `tests/` — tests of the library.
