# dictation_indicator

The decisions behind a small heads-up display that shows what a dictation tool is
doing: recording, transcribing, done, cancelled or failed. They are written in Rust and
verified with Verus; every function states what it returns or changes.

## Layout

- `src/phase.rs`, `src/event.rs`, `src/renderer.rs`: the phases, the events, and how the
  events change what is shown.
- `src/frame.rs`, `src/spring.rs`, `src/jobs.rs`, `src/shared.rs`: one frame, from what
  moves the springs to what the shader is told, and when drawing stops.
- `src/screen.rs`, `src/indicator.rs`: which screen the window belongs to.
- `src/upkeep.rs`: how the window and its display link are kept alive, as three routines
  that ask for one thing after another.
- `src/ui.rs`, `src/meter.rs`: the display as the application sees it, and the levels of
  recorded sound.
- `src/scalar.rs`, `src/time.rs`: numbers by their bit patterns, and time.
- `src/laws.rs`, `src/upkeep_laws.rs`: what holds over any run of events and frames, and
  over whole routines.
- `app/`: the window, the display link, the Metal surface, and the floating-point
  arithmetic. The library hands it bit patterns and takes bit patterns back.
