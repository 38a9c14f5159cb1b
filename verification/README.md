# tafarn

The logic of a Mastodon-compatible ActivityPub server, verified with Verus.

- `src/` is the library. Each module holds the decisions and computations of
  one part of the server, with contracts over mathematical models:
  - federation: `activity_streams` (object model, request body checks),
    `signature` and `signing` (HTTP signatures read and made), `delivery`
    (digests and headers of outgoing requests), `tasks` (what an incoming
    activity leads to, where a referenced object is looked up, how a status
    is addressed), `notes` (remote and local statuses, boosts, likes and
    deletes), `relationships` and `relations` (follows), `actors` (remote
    actor documents and this server's own), `collection` (walking a remote
    collection page by page);
  - client API: `oauth`, `tokens`, `oidc`, `csrf`, `views`, `statuses`,
    `timelines`, `accounts`, `media`, `notifications`, `web_push`, `search`,
    `instance`;
  - discovery: `meta` (WebFinger and the NodeInfo links) and `nodeinfo`;
  - shared helpers: `text`, `encoding`, `ids`, `uris`, `crypto`, `i18n`.
- Calls into other crates (OpenSSL, base64, UUIDs, URL and URI parsing,
  regular expressions, JSON web tokens, language negotiation, randomness)
  go through small functions whose contracts say what the crate does, as
  far as it is a matter of the arguments: random values (fresh UUIDs,
  random bytes, generated keys) are stated only by their shape, and a
  signature made with a key is stated as a relation between key, data and
  signature, since some kinds of keys sign with a random nonce.
- `tests/` runs the library on concrete values.
- `app/` is the HTTP front built on Rocket: routes, fairings, request
  guards and JSON bodies for the parts whose state fits in one process.
  Times, database rows and fetched documents reach the library as plain
  values.
