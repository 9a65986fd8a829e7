# wallet_live

The logic of the Wallet Live portfolio service, verified with Verus, and the
web application around it.

- `src/` is the verified library:
  - `user.rs`: typed-in credentials and signed-in users; the decisions of
    signing in (password check through `password_auth`), registering, the
    login form and the session lookup.
  - `admin.rs`: the administrator's `Authorization` header check.
  - `error.rs`: the service's failures, their HTTP status and message.
  - `chat.rs`: the keyword-driven assistant (topic choice, reply tables,
    random pick) and the per-user conversation store.
  - `text.rs`: text search used by the assistant.
  - `assets.rs`: lookup of an asset by id and the outcome of an update.
  - `pages.rs`: the welcome page and decimal formatting of ids.
  - `laws.rs`: properties that relate several operations.
- `app/` is the axum server: routes, database access with sqlx, templates,
  JSON types, session tokens, charts and floating-point totals.
- `tests/` exercise the library on concrete values.

The page templates (`templates/*.html`) that the application renders are
not part of this tree.
