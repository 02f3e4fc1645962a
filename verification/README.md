# image_host

An image-hosting backend whose decisions are verified with Verus.

| Where | What |
|-------|------|
| `src/accounts.rs` | registration, login, logout, approval of users |
| `src/session.rs` | authentication by bearer token |
| `src/credentials.rs` | token digests, random identifiers, password hashes |
| `src/gallery.rs` | upload, listing and deletion of images |
| `src/favorites.rs`, `src/tags.rs` | favorites and tags |
| `src/tagging.rs`, `src/media.rs` | tags suggested by a vision model; file kinds, Base64, JSON |
| `src/discord.rs` | posting images to Discord |
| `src/store.rs` | the SQL statements and the values bound to them |
| `src/reply.rs` | refusals and answers with their HTTP status and text |
| `src/text.rs` | splitting, trimming and joining of text |
| `src/model.rs` | what the statements do to the tables, and the laws that follow |
| `src/listings.rs` | what the lists show of the tables, and the laws that follow |
| `app/` | the server: routes, SQLite, files, HTTP |
| `tests/` | tests, some of them against SQLite in memory |

Each request is a chain of steps. A step takes what came in from outside, a header, a row, the
outcome of a write, and returns what is to be done next or how the request ends. The library does
no input or output itself.

The calls into `sha2`, `hex`, `uuid`, `argon2`, `infer`, `base64`, `serde_json` and `http`, and three
functions of the standard library, are not proved: they are marked `external_body` or
`assume_specification`, and the comment above each says what is taken for granted of it.

Two more things are not proved and carry no such mark. The laws in `src/model.rs` and
`src/listings.rs` speak of tables and of what the statements do to them; that SQLite does the same
is tried in `tests/database.rs`. So is it that the favorites and tags of an image go with it when it
is deleted, which rests on the schema in `app/db.rs`.
