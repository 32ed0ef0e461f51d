# canvas_app

The session logic of a desktop canvas editor and its image gallery, written
in Verus and proved against its contracts.

- `src/` — the verified library: folder navigation and the gallery model,
  the grid order (natural name order, or newest first), the session-wide
  undo/redo across the designs of a deck, keyboard
  shortcut and mouse decisions (fit, wheel, pan, drag start, presses on
  canvas headers), layer deletion and background rules, z-order moves, the
  export dialog, the rename fields and the closing of stale panel edits.
  Each module states its laws as
  public proof functions.
- `tests/` — executable tests of the library.
- `app/` — the egui side: reading a frame's input into the library's plain
  values, the floating-point camera and header geometry, and the gallery's
  file-system edges.
