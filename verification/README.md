# audio_loop

Audio output with a start/stop loop, commands to a runner, and updates to listeners.

The library under `src/` holds the logic and is verified with Verus:

- `backend`: planar and interleaved buffers, and the conversions between them;
- `backend::core_audio`: what a Core Audio backend asks of the system, and what it makes of the
  answers;
- `device`: the choice among the configurations that a device supports;
- `control`: the state of a stream, and the decisions of starting, stopping and sending commands;
- `threads`: what the stream thread, the audio callback and the update thread do step by step;
- `subscription`, `delivery`: listeners, and the delivery of updates to them;
- `ring`, `channel`: the `rtrb` ring buffer and the standard library's channel, with what is
  believed of them;
- `audio_loop`: the loop as one thread sees it;
- `laws`: what holds across these parts.

`app/` wraps the library in threads, `cpal` streams and Core Audio calls. `tests/` runs the library.
