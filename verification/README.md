# neon_api

The backend of the Neon Defense game: sign-up and sign-in, player profiles,
match uploads with anti-cheat checks, and the live configuration and store.

- `src/` is the library, verified with Verus. It holds every decision the
  service makes: which requests are refused and how, what is written for a
  match upload and in which order (`sync::SyncSession`), how passwords are
  hashed and checked (Argon2), how session claims are issued, and the shape
  of each reply.
- `app/` is the HTTP service around it (axum, sqlx, jsonwebtoken, tracing):
  it reads requests and the database, hands the library plain values, performs
  the commands the library returns, and logs.
- `tests/` exercises the library on concrete values.
