# vellum

The verified core of Vellum, a Wayland overlay for drawing over the desktop.

- `src/` is the library, written in Verus. Its functions carry contracts
  that Verus proves, except a few small wrappers around calls into other
  crates (colour parsing, grapheme segmentation, font settings, string
  formatting, sorting), whose contracts are taken as given: which tool acts and which cursor shows, how
  presses, key actions and the fill toggle are routed, how the selection
  changes, how pen samples are buffered, how the text-input protocol follows
  the edited text, which outputs take input and which need a new frame, how
  the caret blinks, how font settings and render-target sizes are checked,
  and how control commands are written and read.
- `tests/` runs the library on concrete inputs.
- `app/` is the `vellum` command-line client: it parses arguments and talks
  to the running overlay over its control socket, and holds the Wayland side
  of the text-input protocol.
