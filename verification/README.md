# api

A small web service that serves an Instagram account's latest posts and
proxies OpenStreetMap tiles, with its logic verified in Verus.

- `src/` — the verified library: Graph API requests (`instagram`,
  `auth::instagram`), media records and cached image names (`media`), the
  map tile proxy's validation, cache paths and reply decisions (`tile`), the
  access token in the secrets vault and the login decisions (`auth`), and
  the served-media cache (`lib.rs`).
- `app/` — the server around it: routes, HTTP and file I/O, the oauth2
  client, background refresh loops, and serde copies of the library's types.
- `tests/` — tests of the library on concrete values.
