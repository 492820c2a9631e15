# tamer

Pure input/output logic for small embedded peripherals, written in Verus:
debouncing, quadrature decoding, button and touch gestures, analog
normalization and deadbanding, Hall-effect presence, MPU6050 burst parsing and
calibration, sliding-window smoothing, clamped range mapping and a tone
sequencer. Every public function in `src/` carries a contract that Verus
proves; the state machines are specified by abstract `step` functions, and the
laws that span calls (a bounce cancels, a full detent cycle moves one step, a
long press suppresses its click, a one-shot melody finishes once) are public
proof functions or `ensures` clauses.

Layout:

- `src/` — the verified library. Hardware reads go through the `DigitalRead`
  and `AnalogRead` traits; `MockInputPin` and `MockAnalogRead` serve tests.
- `tests/` — host tests of the library.
- `app/` — unverified glue: an `embedded-hal` pin bridge, the interrupt-driven
  ESP-IDF rotary-encoder driver, and the floating-point parts (EMA filter,
  tilt angle, accelerometer sensitivity).
