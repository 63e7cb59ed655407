# blog_api

Request-handling rules of a small blogging service (users, log-in with
Argon2 password hashes, bearer tokens, text posts), verified with Verus.

- `src/` — the verified library. Handlers are split into what they store and
  what they answer: given the outcome of a database call, each function
  returns a `reply::Reply` (status and JSON payload) with an exact contract.
  Password hashing goes through the `argon2` crate behind trusted wrappers in
  `src/user/password.rs`; the clock goes through `chrono` in `src/auth/mod.rs`.
- `app/` — the actix-web server: configuration, PostgreSQL access with sqlx,
  JSON encoding, token encoding and decoding with jsonwebtoken.
- `tests/` — tests of the library on concrete values.
