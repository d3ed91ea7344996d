# frost_tune

Frost-Tune configures the parametric EQ of USB DACs over HID (the Moondrop
TP35 Pro among them). This crate is its core, written in Verus: every
function in `src/` carries a contract that the verifier proves.

Layout:

- `src/` — the verified library: the TP35 Pro packet formats and their
  parsers, the nonce session and HID report framing, the read loops and the
  push, verify and rollback state machine, fitting and checking EQ data
  against a device's capabilities, the worker's connection routing, the
  elevated helper's session rules, diagnostics (events, log lines and the
  report), storage rules and AutoEQ band layout.
- `tests/` — tests of the library.
- `app/` — the program around it: the command line, HID and file I/O, the
  worker threads, the elevated helper process, and the real-valued EQ
  arithmetic (biquad coefficients, gain and Q clamping and comparison,
  AutoEQ numbers).
