# snappers

A Wayland screenshot tool with an interactive region picker, written as a verified
library (`src/`, checked by Verus) and a thin program around it (`app/`).

`src/` holds what the tool decides and computes, each function with a contract:

- `geometry`: points, sizes and rectangles; clamping a rectangle into bounds.
- `state`: the selection model of the region picker (press, drag, release, move mode,
  keyboard nudges and resizes, cycling between outputs) and its invariant.
- `overlay`: key and pointer handling of the picker, matching captured outputs to
  Wayland outputs.
- `render`, `overlay_renderer`: help-panel placement and size, the capture button,
  premultiplied pixels, and the quads the overlay draws.
- `capture`: finding the output under the pointer, PNG encoding, output descriptions.
- `config`, `theme`, `text`: key-binding parsing, the configuration file's meaning,
  color themes, and the string helpers they need.
- `save`, `clipboard`, `cli`: what persisting a capture does with clipboard and file
  results, the clipboard helper's readiness report, and the command-line options.

`app/` parses the command line, reads the configuration file, talks to the compositor,
spawns the clipboard helper, draws with Cairo, and sends the notification.
