# switchboard

A gateway that puts channels, issues and artifacts from several platforms
behind one REST API under `/api/v1`.

- `src/` is the verified library: the domain types and their errors, the
  creation schemas, the requests the Klondike adapters send (URLs and JSON
  bodies), in-memory stores with their read-after-write laws, and the
  configuration rules of the command-line tool.
- `app/` holds what runs around it: the axum server and its routes, the
  HTTP client side of the Klondike adapters, the prompts, files and
  `docker compose` calls of the command-line tool, and the serde forms of
  the library's types.
- `tests/` exercises the library on concrete values.
