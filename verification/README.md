# bmp5xx

Driver for the BMP580/BMP581/BMP585 barometric pressure sensors, with its
logic verified in Verus.

- `src/` — the verified library. Each sensor operation (initialization, reset,
  standby, forced/normal/continuous measurement, IIR filter, interrupt and
  out-of-range configuration, sample reads) is built as a `Transaction`: a
  fixed sequence of I2C writes, register reads and waits. The transaction
  decides after each bus reply whether to go on, finish or fail, and its
  contracts state the exact bytes written, the checks made on the bytes read
  and the resulting outcome.
- `app/` — the async front end: performs the actions of a transaction on an
  `embedded_hal_async` I2C bus and delay provider, and converts raw samples to
  °C and hPa.
- `tests/` — tests that drive transactions with simulated bus replies.
