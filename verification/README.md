# webxr

The logic of a WebXR implementation, written in Verus: sessions and the
thread that runs them, event buffering, input sources and their select
gestures, a mock device that a test harness drives, hit-test entity types,
hands, layers and framebuffers, and the frame and gesture logic of the
OpenXR, Google VR, Magic Leap and windowed backends. Each operation states
in its contract what it returns or changes, and the properties that span
operations are proved as lemmas beside them.

- `src/`: the verified library, one module per concern.
- `tests/`: tests of the library on concrete values.
- `app/`: what the library leaves to ordinary Rust: threads, channels,
  locks, timing and the floating point poses and projections of the mock
  device.
