# mcp-odoo

An MCP server that exposes an Odoo instance (through its JSON/2 API) as tools:
`list_models`, `describe_model`, `search`, `read`, `create`, `write`, `delete` and
`call_method`, with glob-based model filtering, a read-only mode and paginated search.

## Layout

- `src/` — the verified library (Verus):
  - `config.rs`: the server settings, the `ODOO_URL` check and the comma-separated
    pattern lists;
  - `model_filter.rs`: which models are exposed, by inclusion and exclusion globs;
  - `error.rs`: the errors and their mapping from Odoo's HTTP statuses;
  - `odoo_client.rs`: the client settings (header values, base URL), endpoint URLs and
    what a reply means;
  - `tools/`: the tool catalogue and its schemas, reading tool arguments, planning the
    Odoo calls of a tool (`dispatch`) and building its answer from the replies
    (`complete`), with the read-only rules;
  - `json.rs`, `text.rs`: the JSON values and string helpers the rest is stated over.
- `app/` — the executable: command line, HTTP transport and the MCP stdio service,
  which runs the calls a plan asks for and hands the replies back to the library.
- `tests/` — tests of the library on concrete values.
