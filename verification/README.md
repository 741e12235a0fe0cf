# texnouz_csms

The verified core of an OCPP central system (CSMS): the parts of the server
that decide and compute, written in Verus with their contracts proved.

- `src/` — the library. OCPP-J framing (`frame`), protocol negotiation and
  the handshake (`negotiator`, `handshake`), sessions and connection rate
  limiting (`session`, `rate_limit`), request authentication
  (`auth`), request validation (`validation`, `accounts`, `commands`,
  `charge_points`, `tariffs`, `id_tags`), reservations, charging profiles,
  transactions listing and statistics, analytics (`analytics`, `buckets`,
  `calendar`), notification filtering (`events`), health, request ids and
  retry decisions.
- `tests/` — tests of the library against concrete values.
- `app/` — the program around it: the HTTP server (axum), the event bus and
  notification WebSocket (tokio), graceful shutdown, and the JSON forms of
  the library's types (serde).
