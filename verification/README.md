# shorten_rs

A URL shortener whose core is verified with Verus.

- `src/` — the verified library:
  - `time.rs`: spans of time and instants since the UNIX epoch, the clock.
  - `dtos.rs`: request payloads, their validation rules, expiration options.
  - `services/url_shortener.rs`: short ids, shortened urls, their storage
    rows, the blacklist and the decision to shorten a url.
  - `services/users.rs`, `services/passwords.rs`,
    `services/authentication.rs`: users, Argon2 password hashing and
    checking, registration and credential checks.
  - `controller.rs`: the replies of the HTTP handlers, decided from the
    outcomes of the service calls.
  - `extractors/authenticated_user.rs`: the user a request is made by.
- `app/` — the actix-web server around the library: handlers, session
  handling, SQLite queries through sqlx, serde copies of the payloads.
- `tests/` — tests of the library.

Shortening normally mints a fresh entry with its own id and lifetime, even
for a url that was shortened before. `reuse_or_mint` is the other policy,
one id per url: it hands back the id of the live entry already stored for
the url and mints a one-day entry only when there is none.

Visits are counted by the library too: `count_visit` gives the stored
count after one more visit, which `app/` writes back inside a transaction
that holds the write lock.

Expired entries are hidden by the library (`first_live`), which the SQL
lookups in `app/` hand every candidate row to; the `*_with_expired` lookups
return the stored row as it is.
