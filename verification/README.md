# embedded-sgp30

A driver for the Sensirion SGP30 gas sensor, split in two:

- `src/` is the protocol, verified with Verus: command framing, the CRC-8 on
  every data word, decoding of the sensor's replies, and the bring-up of a
  sensor (probe its serial ID, then check its feature set). The library never
  touches a bus: each operation is described as a `Transfer`, and what the bus
  returned is handed back to the library to decode.
- `app/` carries out those transfers on the `embedded-hal` (and
  `embedded-hal-async`) I²C and delay traits, with the same API as a classic
  driver: `Sgp30::new(i2c, address, delay)`, `measure_air_quality()`, ...
