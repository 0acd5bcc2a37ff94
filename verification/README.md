# wmde_comp

The part of a Wayland compositor that decides: where windows snap to, what a drag changes while it
runs and when it ends, who holds the session lock, and what is published about open windows. It is
written in Verus; every function states what it does and is proved to do it.

- `src/` is the library.
  - `geometry`, `fraction`: pixels, and exact fractions of them.
  - `snap`, `layouts`, `snap_laws`: the cells of a layout and where they land.
  - `zones`: the zones along the edges of an output.
  - `snap_strip`: the layout strip that drops down while a window is dragged.
  - `grabs`, `delay`, `pending`: how a drag starts.
  - `moving`, `moving_laws`: what a motion changes.
  - `release`, `workspaces`: where a window is dropped, and what is cleaned up.
  - `render`, `elements`: what is drawn of a drag.
  - `session_lock`, `seats`: locking the session.
  - `windows`: the published list of windows.
  - `logger`: which log messages are kept.
- `tests/` runs the library.
- `app/` connects it to the seats, the outputs, the login manager and the bus.

Outputs, windows, surfaces and workspaces are named by numbers. Whatever is measured in floating
point (pointer positions, the thumbnails of the strip) is measured in `app/`, which hands whole
pixels and yes-or-no answers to the library.
