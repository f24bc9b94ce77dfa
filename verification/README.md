# actix_practice

Request-handling logic of a small Actix Web practice server, written in Verus
and proved against its contracts.

- `src/` is the verified library: decimal printing and parsing, string
  helpers, the "add one" body rewriting of the middleware examples, the user
  lists and request logs, the `/simple` stores and the bounded payload buffer,
  error and reply selection, the server-sent event counter, static file path
  resolution, the message board with URL-encoded redirects, and CORS
  configuration built through the actix-cors builder, with the policy of each
  configuration stated over names for the builder's state.
- `app/` is the server around it: routing, extractors, locking, file access,
  JSON (serde) and middleware plumbing.
- `tests/` exercises the library on concrete values.
