# exchange_data_normalizer

Normalizes the trade feeds of Binance and Kraken into one canonical trade
schema and publishes them as JSON lines on stdout.

- `src/` is the verified library:
  - `json.rs`: the JSON document model that message decoding reads;
  - `text.rs`: character-level helpers (equality, unsigned decimal integers);
  - `binance.rs`, `kraken.rs`: message schemas, conversion to canonical
    trades, and each connector's session state machine;
  - `session.rs`: the events a read loop observes and the steps it takes;
  - `backoff.rs`: reconnect delays (doubling, 30 s cap, jitter) and the
    reconnect policy;
  - `publish.rs`: non-blocking hand-off to the publisher channel;
  - `types.rs`: the canonical trade, exchanges, sides, the clock.
- `app/` is the program: websocket I/O, JSON text parsing, sleeping, logging,
  metrics, and serialization of trades to stdout.
