# kd6

KD6 is an Open Memory Service for agentic AI: tenants keep memory stores,
agents write, search and link memories, and every change is recorded in a
tamper-evident audit chain.

The crate is split in two:

- `src/` is the library, verified with Verus. It holds the data model and
  its text codes, request validation, the SQL the backend runs (built as
  text with its bind values), the decoding of stored rows, the audit hash
  chain and GDPR redaction, store inheritance and bubble-up, shared spaces,
  graph traversal, search planning, embedding decisions, the MCP tool
  parameters, and the HTTP error mapping. Each public function carries a
  contract; the laws that relate several functions are public proof
  functions.
- `app/` is the service around it: the SQLite backend (sqlx), the HTTP API
  (axum), the MCP server (rmcp), the embedding providers (fastembed and
  OpenAI-compatible endpoints), and the serde forms of the library's types.

The calls the library makes into outside crates (UUID parsing and
formatting, RFC 3339 checking, SHA-256, reading a JSON list of strings) go through small trusted wrappers
whose contracts are stated in `src/ids.rs`, `src/entry.rs`,
`src/audit.rs` and `src/json.rs`.

Run the HTTP API with `kd6`, or the MCP server with `kd6 mcp`
(`KD6_MCP_TRANSPORT` selects `stdio` or `http`). The database URL comes
from `KD6_DATABASE_URL`, the embedding provider from
`KD6_EMBEDDING_PROVIDER` (`local`, `openai-compatible` or `none`). The
`local` provider runs fastembed on ONNX Runtime, which is loaded at run
time: point `ORT_DYLIB_PATH` at the `onnxruntime` shared library. Its model
files are fetched from the Hugging Face hub on first use.
