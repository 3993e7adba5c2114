# rust-analyzer-mcp

An MCP (Model Context Protocol) server that puts rust-analyzer's language
server behind MCP tools, resources and prompts.

The decisions of the server are a library verified with Verus (`src/`): the
message dispatch and every reply it builds, the tool, resource and prompt
tables, the `Content-Length` framing, the LSP request numbering and reply
matching, the texts each tool answers with, the cache, the metrics, the
configuration defaults and environment overrides, the workspace registry,
the manifest readers, the checks on arguments and paths, and the order in
which rust-analyzer is looked for and installed.

`app/` is the program around it: command line, standard input and output,
the rust-analyzer process, HTTP downloads, archives and the file system.
It converts between the library's plain types and the serde types of the
outside crates where those meet: LSP parameters and results (`lsp-types`),
and the configuration, health and metrics records it writes.

Layout of `src/`:

- `text`, `json`, `keyed`, `paths`, `clock`, `wire`: decimal text, trimming
  and joining; the JSON tree; lists of entries read as maps; the `std::path`
  and clock operations used; JSON and TOML text in and JSON text out.
- `mcp`: `protocol` (dispatch and replies), `tools`, `resources`, `prompts`,
  `handlers` (tool arguments and texts), `health`.
- `lsp`: `framing`, `client` (request numbering and reply matching),
  `transport`.
- `cache`, `metrics`, `config`, `security`, `platform`, `updater`,
  `workspace` (`config`, `discovery`, `manager`).

The cache, the metrics and the workspace registry are keyed by text. They
keep their tables as lists of (key, value) pairs with distinct keys
(`keyed`) rather than as `HashMap`s: vstd's `HashMap` contracts hold only
for key types known to obey its key model, which does not include
`String`, so nothing of a lookup after an insert could be proved with them.
