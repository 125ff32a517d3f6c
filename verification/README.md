# collab

The request handling of a collaboration server, verified with Verus.

- `src/` decides: who may call the server (`authorization`, `routes`), what the sign-in page looks
  like (`signin`), how a browser that comes back from GitHub or AFFiNE is signed in (`github`,
  `affine`, `native_app`, `handoff`), and who gets which access token (`access_token`,
  `impersonation`). A request that has to wait for a reply is a chain of small types: each takes
  the reply and returns the next call to make.
- `app/` performs: it mounts the routes on axum, asks the database, the token issuer and other web
  services, and hands the replies back.
- `tests/` runs the library on concrete values.

What is taken on trust is the behaviour of four calls into other crates: `HeaderValue::to_str`,
`urlencoding::encode`, `DateTime::parse_from_rfc3339` and `Utc::now`.
