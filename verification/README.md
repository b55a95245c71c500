# nab — Network Audio Bridge

Three terminal programs that move audio over the network:

- `nab` sends, receives, or does both, over UDP;
- `nab-recv` receives over UDP and corrects clock drift with an adaptive resampler;
- `nab-live` publishes a REAPER master bus (through the NAB Tap plugin), a
  CoreAudio input or a test tone to a LiveKit room.

## Layout

- `src/` is the library, verified with Verus: the UDP packet format and the
  plugin packet format, sequence tracking and loss concealment, jitter-buffer
  rules, the setup wizards as state machines, the command-line rules of
  `nab-live`, its reconnect supervisor, the listener set, RTP totals, the
  status report and the log line format.
- `tests/` runs the library on concrete values.
- `app/` is the programs around it: terminal drawing, audio devices,
  sockets, threads, the LiveKit client, and the floating-point work
  (resampling, levels, the test tone).

Little-endian fields are read and written through `byteorder`; those calls
are the library's trusted items, in `src/le.rs`, together with the lower-casing
of device names in `src/devices.rs`.
