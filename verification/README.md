# ac_scheduler

Controller for a Daikin air conditioner that cools on a nightly schedule (seven slots
between 22:00 and 07:00, 195 minutes in all), with manual control, a countdown timer,
vacation mode and a room sensor. The library is written in Verus and verified.

Layout:

- `src/scheduler/` — the schedule, the edge-triggered scheduler engine, vacation settings.
- `src/ir/` — the Daikin 35-byte packet, its checksums and its pulse train; transmitters.
- `src/sensors/bme280.rs` — BME280 register decoding and integer compensation.
- `src/state.rs` — controller state, countdown timer and status report.
- `src/controller.rs` — one step of the control loop and the boot evaluation.
- `src/web/` — query strings, routing and the state changes of the web API.
- `src/storage.rs`, `src/config.rs`, `src/clock.rs`, `src/text.rs` — persistence,
  configuration, clocks, string and number helpers.
- `app/` — host simulator: HTTP server, JSON encoding, configuration file, simulated sensor.
- `tests/` — tests of the library.
