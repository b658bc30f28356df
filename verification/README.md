# prom_multi_proc

Client library for collecting Prometheus metrics in multi-process applications. Metrics are
defined in a JSON file shared with the aggregator; observations are sent to the aggregator as
JSON arrays over a Unix socket.

## Layout

- `src/` — the library, verified with Verus:
  - `validate.rs`, `text.rs` — the rules for metric names, label names and the prefix;
  - `registry.rs`, `client.rs` — configuration, and the registry built from the metric
    definitions (which definitions are accepted, each metric's short name and sent name);
  - `collector.rs`, `counter.rs`, `gauge.rs`, `histogram.rs`, `summary.rs`, `batch.rs` — the
    observations each metric operation records, checked against the metric's labels;
  - `writer.rs` — the batching policy: what waits and what is handed over at each write,
    flush, timer tick and shutdown, with the proof that everything written is handed over
    exactly once and in order.
- `app/` — the running client around the library: reading the definition file, JSON
  encoding, the socket, the flush thread and the clock.
- `tests/` — tests of the library.

Observation values are carried by the library as the bit pattern of a binary64 number
(`f64::to_bits`); the library never computes with them.
