# hermes_gateway

A message gateway between chat platforms and an AI agent process that speaks
JSON-RPC 2.0, one message per line, on its standard input and output.

The library in `src/` is verified with Verus. It holds the gateway's
decisions; what is left outside is I/O and timing:

- `json`: a JSON document model with a mathematical view; text is parsed by
  `serde_json` behind one trusted function.
- `decode`: reading JSON values as records, with `serde_json`'s outcomes and
  error texts.
- `agent_bridge`: request ids, pending replies, reply matching, timeouts,
  notification decoding and routing to subscribed sessions
  (`protocol`: the JSON-RPC messages; `types`: the agent's payloads).
- `router`: one gateway session per chat (`session`, kept in a `DashMap`),
  what routing a message asks of the agent, and what streamed events send
  back to the platform (`stream`).
- `http`: the bodies and error answers of the HTTP API.
- `platforms::qqbot`: the QQ Bot adapter's state machine: authentication,
  gateway URL, the WebSocket payloads (HELLO, dispatch, reconnect), heartbeats
  and message sends.
- `text`, `table`: decimal rendering, string comparison, and a small
  string-keyed table.

`app/` is the program around it: it spawns the agent process, moves lines
over its pipes, waits for replies with the configured timeout, serves the
HTTP API with axum, and talks to QQ over reqwest and tokio-tungstenite,
performing at each step what the library decided.

The tests are in `tests/`.
