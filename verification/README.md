# todo_service

The account, login and access-token logic of a small to-do web service,
verified with Verus.

- `src/` is the library. `guard` and `login` are state machines: the server
  feeds them what the database and the token signer answered and performs the
  action that comes back. `lookup` picks the holder of a token from database
  rows, `password` hashes and checks passwords with bcrypt, `users` builds the
  sign-up answers, `status` holds the status codes and their texts, and
  `models` the request and response bodies.
- `app/` is the HTTP service around it (axum, DuckDB, the JSON forms of the
  bodies). It takes the token signer as a `TokenService` and the routes that
  need a valid token as a `Router`.
- `tests/` runs the library on concrete values.
