# autoclicker

The decision logic of a trigger-key autoclicker, verified with Verus.

- `src/keys.rs`: trigger key names, key matching, and how press and release
  events hold or let go of the trigger.
- `src/clicker.rs`: the shared start/stop state and the clicking loop's
  per-round decision (click or not, and how long to pause).
- `src/text.rs`, `src/geometry.rs`: substring search on characters, UTF-8 and
  UTF-16 title decoding, and window rectangles.
- `src/platform/`: what Linux (X11), macOS, Windows and the fallback platform
  make of the window system's answers.
- `app/`: the Tauri commands, the keyboard hook, the mouse, the timers and the
  window-system calls, which drive the library.
