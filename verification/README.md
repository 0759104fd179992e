# platform

Host of a Roc web-server platform: the application asks for effects through
tagged continuation pointers (database statements and queries, reading the
request body, answering), and the host runs them.

- `src/` is the verified library: tagged pointers (`tag`), the continuation
  protocol (`effect`), the database rules (`sql`), response headers (`headers`), the HTTP rules (`http`),
  start-up and panic rules (`host`), and string comparison (`text`).
- `app/` is the host program around it: the C ABI, the hyper server, the
  SQLite pool and the loop that performs each effect.
- `tests/` exercises the library on concrete values.
