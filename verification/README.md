# sqlx (wire protocol core)

The byte-level core of a database client for MariaDB/MySQL and PostgreSQL,
written in Verus and verified.

- `src/buffers.rs` — the `bytes` containers and `byteorder` readers/writers
  that the rest of the library uses, with their (trusted) contracts.
- `src/le.rs` — fixed-width integers as byte sequences and the facts that tie
  writing and reading them together.
- `src/mariadb/` — the MariaDB encoder (`Encoder`), the `int<lenenc>` decoder,
  the OK packet, the client commands, packet framing, and the decisions of a
  connection (when a received packet is complete, what a result-set packet is).
- `src/postgres/` — splitting the PostgreSQL backend stream into messages, the
  `ReadyForQuery` message, the steps of the receive loop, and the `Terminate`
  message.
- `src/tycons.rs`, `src/backend.rs` — type-level helpers for query macros.
- `app/` — asynchronous connections that move bytes between a socket and the
  library.
