# digital_twin

The core of a digital twin of a production line, written in Verus: each
function of the library carries a contract that Verus proves.

## Layout

- `src/` — the verified library.
  - `engine/` — a bounded FIFO event queue, the workflow engine that drains
    it in bounded batches, and the synchronizer's mappings and errors.
  - `database/` — a database-agnostic client model: configuration with its
    validation and builder, a registry of typed datapoints, the bookkeeping
    of a connection pool (checkout and release decisions), pooled protocol
    connections, operation results.
  - `postgres/` — column types, the catalog of tables and data bindings that
    stays consistent with the schema, the SQL statements that change the
    schema, the worker's decisions for each request (statement, catalog
    change, persist, answer), and the registry of databases by name.
  - `mqtt/` — telemetry parsing (a custom tuple list and JSON), the
    structured event schema, decoding of broker messages into gateway events,
    commands and their topics, and the property model fed by telemetry.
  - `gateway/` — the protocol-neutral downstream model (configuration,
    methods, properties) and the MQTT bridge's topics and credentials.
  - `text.rs`, `time.rs`, `keyed_map.rs` — text, time and map building blocks.
- `tests/` — tests of the library on concrete values.
- `app/` — the programs around the library: broker and database I/O, async
  tasks, serde copies of the library's types, and float arithmetic.

Outside crates are called from the library only through small trusted
wrappers (clock, UUIDs, regular expressions, RFC 3339 parsing, JSON
reading, UTF-8 decoding), whose contracts say what their documentation promises.
