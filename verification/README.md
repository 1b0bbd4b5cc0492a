# sdr-source-rs

Common abstraction for SDR sources, verified with Verus. Backends that hop over
channels share the pacing of their dwells, the buffers in which they hand
samples on, and the errors they report.

- `src/dwell.rs`: `DwellController`, the deadline of a hop, and its laws.
- `src/buffer.rs`: `PooledIqBuffer`, a slice of samples that returns its cleared
  vector to a pool when dropped.
- `src/pool.rs`: the pool, a `crossbeam` channel, and what is trusted of it.
- `src/time.rs`: `Instant` and `Duration` as nanoseconds, and what is trusted of
  them.
- `src/advice.rs`, `src/error.rs`: `DwellAdvice` and `SdrError`.
- `app/`: the face that backends implement (`SdrSource`, `SdrHandle`, `IqPacket`,
  `SourceConfig`), whose rates and frequencies are floating-point numbers.
- `tests/`: the library at work on real clocks and channels.
