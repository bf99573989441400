# Merdia

A media display: it mixes video sources, draws them on a screen, and answers STUN requests so that
clients learn their address.

The decisions of the program are a library under `src/`, verified with Verus:

- `addr`, `wire`, `codec`, `stun`: addresses, the STUN wire format, messages read and written with
  `stun_codec`, and the server as a state machine over its sockets.
- `window`, `display`, `setup`: the choice of a connector, a mode and a display configuration, and
  the steps that set a display up.
- `renderer`, `memory`, `frames`: the drawing commands of the scene and of a frame, the bytes of
  its buffers, and the way of a frame from the pipeline to the screen.
- `video`: the media pipeline, its messages, and the elements that leave it.

Each state machine takes an event and hands out the next action. `app/` is the program that
carries the actions out: sockets, devices, drawing calls and the pipeline. `tests/` runs the
library on concrete values.
