# forum

The library behind a small forum server, verified with Verus.

- `src/domain`, `src/models`: the checked values of the forum (titles,
  contents, slugs, user names, passwords, display names). Each type keeps as
  its invariant that its text passes its own check.
- `src/text.rs`: trimming, character classes and the calls into
  `unicode-segmentation` and `slug`.
- `src/utils.rs`: UUID text, parsing and the random slug token (`uuid`).
- `src/credentials.rs`: the calls into `argon2`.
- `src/config.rs`: database connection strings.
- `src/auth.rs`, `src/session.rs`: session ids from headers and cookies, the
  session cookie.
- `src/routes`: what each route decides (ownership checks, password checks,
  validation) and the HTTP status of each of its errors.
- `app/`: the server itself (axum, sqlx, configuration), which does the I/O and
  calls the library for every decision.
