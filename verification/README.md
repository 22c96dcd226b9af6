# st0x-pricing-types

Wire types for the st0x.pricing service and its consumers, as a Verus
library.

- `src/` — the verified library: the frame, quote and trading-schedule
  types; the fixed-width wire values (`WireAddress`, `WireFloat`,
  `WireU256`) with their length-checked decoding (`byte_string`); the
  trading-schedule checks on timestamps and schema version.
- `app/` — the serde encodings: copies of the library's types carrying
  serde's derives, with `From` conversions both ways; the decoders of the
  fixed-width values and of the schedule call the library's verified
  functions.
- `tests/` — tests of the library.
