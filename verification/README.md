# block_mesh_manager

Verified core of three parts of the BlockMesh manager:

- `src/bulk_query.rs` builds the Postgres statement that writes a batch of
  "set to" aggregate values (lock each user's row, then update it);
- `src/aggregator.rs` is the batching state machine of the "set to"
  aggregator: it gathers the latest value per user and decides when a batch is
  due (batch size reached, or the time limit passed);
- `src/extension.rs` is the browser extension's session state and how the
  values that the extension's storage sends update it;
- `src/text.rs`, `src/ids.rs` and `src/clock.rs` hold the text, UUID and clock
  helpers, with the calls into `serde_json`, `uuid` and `chrono`.

`app/` keeps the I/O: the leptos signals and the JavaScript storage channel of
the extension, and the tokio task that receives messages, spawns the database
writes and runs the state machine.
