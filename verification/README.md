# faenger

A small bookmark service: users register and log in with a password, get an
API key, and save, list, check and forget links ("Fänge"). Saved URLs are
looked up on lobste.rs for discussion threads (backlinks).

- `src/` is the verified library (Verus): the decisions of every request,
  API-key issuing and checking, password hashing and checking through
  Argon2, and the storage format of backlinks with its round-trip laws.
- `app/` is the HTTP server around it: axum routes, the SQLite database
  through diesel, the requests to lobste.rs, configuration and logging.
- `tests/` runs the library on concrete values.
