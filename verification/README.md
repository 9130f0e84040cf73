# ollama

A client library for a local Ollama server, verified with Verus.

- `src/` is the verified library: model and settings types, reading a model's
  details from the server's reply (`show`), the requests sent to the HTTP API
  and the decision on a reply's status (`api`), cutting bodies into frames
  (`body`), and string helpers (`text`).
- `app/` is the unverified side: HTTP bodies and the client trait, the serde
  forms of the library's types, and the async calls that send requests.
- `tests/` runs the library on concrete values.
