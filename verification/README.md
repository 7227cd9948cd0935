# modbus_stream

A web server for tri-axial accelerometers on an RS485 Modbus RTU link: live
raw and metrics streams over WebSockets, burst recordings to CSV, a settings
page with live validation, and diagnostics.

## Layout

- `src/` — the verified library (Verus). Everything that decides or computes:
  - `fifo.rs`: planning FIFO reads and collecting samples towards a target;
  - `sensor.rs`: what register values mean and which requests the sensor accepts;
  - `recording.rs`: per-sensor recording state and its transitions, and the
    watch (stuck report, abort) over a collection;
  - `settings.rs`: reading, checking and applying the settings form (with
    the order of writes to the sensor), and the
    live field checks;
  - `config.rs`: configuration defaults and validation (rates held as their
    IEEE-754 encodings);
  - `types.rs`: UCID decoding, validation errors, request and form types;
  - `csv_files.rs`: safe CSV names and the sorted listing;
  - `session.rs`: what a WebSocket session does with each event;
  - `feedback.rs`, `routes.rs`, `tss_ml.rs`, `text.rs`: HTML feedback
    fragments, page paths, the classifier's input layout, decimal text.
- `app/` — the server around it: HTTP and WebSocket handlers, the Modbus
  client, file I/O, configuration files, the FFT and the classifier binding.
- `tests/` — tests of the library.
