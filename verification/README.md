# electron-audio-native

Timing and buffer logic of the native audio module of a rhythm-game sandbox, verified
with Verus. The module plays a decoded song through the output device and reports,
with millisecond precision, which sample is being *heard*.

Layout:

- `src/clock.rs`: the playback clock (start, restart, calibration offset, position) and
  the moving average that makes the origin follow the hardware clock.
- `src/stream.rs`: what the output callback does with each buffer: latency measurement,
  seeks, anchoring of the clock, and filling the buffer from the song.
- `src/device.rs`: the buffer size to ask for and the conversions a song needs, decided
  on the configurations the device reports.
- `src/channels.rs`: remixing interleaved audio between channel counts.
- `src/decoder.rs`: track selection and the decisions of the decoding loop.
- `src/player.rs`: the simple sample-after-sample player.
- `src/time.rs`: nanoseconds since a process epoch.
- `app/`: the device (cpal), the decoder (symphonia), floating-point conversions and
  the Node bindings, around the library.
