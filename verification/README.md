# mcp_rust_proxy

A proxy for the Model Context Protocol (MCP): it runs several MCP servers,
offers their tools, resources and prompts under one endpoint with the names
prefixed by the server (`mcp__proxy__{server}__{tool}`), translates messages
between protocol versions, watches the servers' health, and offers tools,
resources and prompts of its own.

## Layout

- `src/` is the library, verified with Verus. The public functions state
  what they return in their `ensures` clauses, over a mathematical view of
  the data (`JsonView` for JSON documents, `Seq`, `Map`, integers); the few
  that read the clock or draw a random identifier state what holds of every
  reading (see `clock.rs`).
  - `json.rs`: the JSON document model and its laws (get after insert, remove).
  - `protocol/`: protocol versions, the message model, content/tool/resource
    translation between versions, the version adapters, and the connection
    state machine of the initialize handshake.
  - `proxy/`: request planning and the finishing of replies, name prefixing,
    routing, aggregation of the servers' answers, the `tools/list` cache, and
    the proxy's own tools, resources and prompts.
  - `server/`: restart policy, lifecycle decisions and health checking.
  - `transport/`: transport configuration, line framing of stdio servers, and
    the checks of the initialize handshake.
  - `state/`, `web/`: server states, metrics counters, and the web UI's replies.
- `app/` is the program around the library: configuration, processes,
  network endpoints, the async loops. It hands the library plain values and
  acts on the decisions it returns.
- `tests/` runs the library on concrete values.
