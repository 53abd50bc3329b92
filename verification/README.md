# investment_os

A multi-user investment portfolio service: accounts with hashed passwords,
session tokens, and per-user assets managed through a JSON API and HTML
pages.

- `src/` is the verified library (Verus). It holds every decision the
  service makes: validation of asset names and numbers (numbers are handled
  as IEEE-754 bit patterns), request and form checks and the page each form
  leads to, login and registration outcomes (password hashing and checking
  through `password_auth`), the administrator check, secret and cookie
  configuration, the public answer for each error, and the text shown on the
  dashboard (currency grouping, quantities, symbols).
- `app/` is the HTTP layer: axum handlers and extractors, the PostgreSQL
  repository (sqlx), session tokens (jwt-simple), templates (askama), and the
  floating-point arithmetic of asset totals.
- `tests/` exercises the library on concrete values.
