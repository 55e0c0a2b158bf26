# pitwall

Capture and analysis of F1 24 UDP telemetry, with its core verified in Verus.

## Layout

- `src/` — the verified library:
  - `wire.rs`, `parsers.rs`, `packets.rs`: the packed little-endian packet
    layouts and their decoding;
  - `session.rs`: the session state machine (per-frame sample merging, lap
    detection, events) and its model `SessionModel`;
  - `receiver.rs`: what each incoming packet does to the session state;
  - `recorder.rs`: the `.pitraw` raw-recording format;
  - `live.rs`: the snapshot sent to the live dashboard;
  - `storage.rs`: track names and the path components of session
    directories;
  - `tables.rs`: the stored tables (telemetry, laps, events): their column
    names and types, and the columns built from the records;
  - `text.rs`, `ids.rs`: decimal text, and the few calls into std, `uuid`
    and `chrono` whose contracts are trusted.
- `app/` — the program around it: command line, UDP socket loop, WebSocket
  server, writing the tables as Parquet and the metadata as JSON, replay and
  export.
- `tests/` — tests of the library.

Values the game sends as `f32` are carried by the library as their bit
patterns (`f32::to_bits`); the program converts them back where it prints or
stores them. Sector times are whole milliseconds.
