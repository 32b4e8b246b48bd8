# OBD2 dashboard

Logic of an automotive instrument cluster (speedometer, tachometer, fuel and
coolant gauges, turn-signal and high-beam lamps, trip computer), with the
parts that are not floating point verified by Verus.

- `src/controls.rs` — key names to dashboard commands.
- `src/dashboard.rs` — theme and drop-shadow settings, driven by key commands,
  and the per-tick choice between the power-on sweep and live data.
- `src/startup.rs` — the power-on gauge sweep and its phases.
- `src/signals.rs` — the user-driven lamps, their toggle-parity law, and the
  stress-test lamp pattern.
- `src/hardware.rs` — the ESP32 data source stub.
- `src/args.rs` — the `--hardware` command-line switch.
- `app/` — the physics simulator, the data-source trait, the tick loop and
  the console front end (floating point, clocks, randomness and I/O).
