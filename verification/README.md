# local-rag daemon

The daemon that keeps worktrees indexed, remembers what sessions learn, and answers MCP requests
over a local socket.

- `src/` is the library: everything the daemon decides, with contracts that Verus proves. It does
  no I/O. Where work alternates with decisions (starting the daemon, a connection, a sweep, an
  indexing cycle), the library holds a state machine that takes events and names the next step.
- `app/` is ordinary Rust around it: sockets, files, git, threads, timers and the log. The stores,
  the models and the wire format are supplied by the embedding program through traits.
- `tests/` runs the library on concrete values.

| module | what it decides |
| --- | --- |
| `lock`, `lifecycle`, `idle`, `mode` | who owns the store, how the daemon starts, when and how it stops |
| `protocol`, `handshake`, `handshake_stub`, `probe` | what is said on the socket, by either side |
| `jobs`, `gc` | which background jobs run, what a sweep reports |
| `gitroot`, `scope`, `paths` | which worktree a request belongs to, and where it may write |
| `embedder_provider`, `query_embedder`, `lookout` | when an embedding session is opened, and for which queries it serves |
| `indexing` | which worktrees have a task, and what each task does |
| `consolidation_trigger` | which sessions are consolidated, and what is reported of it |
| `normalization` | which texts are translated, and what is stored of that |
| `mcp` | JSON-RPC, the catalog of tools, their arguments and their results |
| `json`, `text`, `order`, `vocabulary`, `failure`, `report` | the values that the other modules share |
