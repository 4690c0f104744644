# reedstreams

The request-handling rules of the ReedStreams streaming back end as a Verus
library, with the HTTP server around it.

- `src/` — the verified library: live viewer counts (`viewers`, over a
  `dashmap::DashMap` with tokio broadcast channels), the per-connection state
  machine of live-view sockets (`session`), authorization headers and client
  addresses (`headers`), UUID ids (`ids`), login, password hashing with bcrypt
  and account checks (`accounts`), chat paging (`chat`), profile pictures
  (`profiles`), stream source settings (`sources`), moderation (`admin`),
  view tracking (`views`), and the request/response bodies (`models`).
- `app/` — the axum server: routing, PostgreSQL queries through sqlx, JSON,
  websockets, JWT session tokens and the clock. It hands plain values to the
  library and acts on what comes back.
- `tests/` — tests of the library on concrete values.
