# photoapp

Backend of a shared augmented-reality photo app: users sign up, create
rooms, invite others with short codes, upload images and world maps to an
S3-compatible store through presigned URLs, place images in a room, and
receive live updates over a WebSocket.

- `src/` is the verified library (Verus). It holds the rules of every
  request handler: input normalisation and validation, password hashing
  (Argon2) and refresh-token digests (SHA-256), access-token claims and
  request authentication, room membership and invitation codes, asset
  paths, presigning limits, the configuration read at start-up, the CORS
  origin list, the per-room broadcast hub and the WebSocket session state
  machine. Each handler that makes several database or storage calls is a
  small state machine here (`auth_flow`, `room_flows`, `placement`,
  `upload`, `signed_reads`, `worldmap`): it says which call comes next and
  what the client is answered, and the server only carries the calls out.
- `app/` is the server around it: axum routing and middleware, PostgreSQL
  queries (sqlx), JWT signing and checking (jsonwebtoken), presigning with
  the AWS SDK, and the loops that carry out what the handler flows and the
  WebSocket session decide.
- `tests/` exercise the library on concrete values.
