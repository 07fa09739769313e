# colorful-picker

A Wayland screen colour picker. It takes a screenshot of the active monitor,
shows it under a full-screen overlay with a magnifying lens, and prints the
colour under the crosshair (and copies its `#RRGGBB` code to the clipboard)
when the left button is pressed.

## Layout

- `src/` is the verified library (Verus):
  - `hex.rs`: reading and writing `#RRGGBB` colour codes, the name caption;
  - `pixels.rs`: screenshot sampling, lens pixels, glyph blending, the
    RGBA to BGRA conversion of the drawn region;
  - `picker.rs`: the overlay's zoom, lock, redraw and exit state machine;
  - `capture.rs`: PNG decoding (through the `png` crate) and widening to RGBA;
  - `palette.rs`: the named colours taken from the colour database;
  - `portal.rs`: the answer of the desktop portal's screenshot request.
- `app/` is the program around it: the screenshot tool, the Wayland event
  loop, drawing with tiny-skia and ab_glyph, the colour-name k-d tree, D-Bus.
  The colour database and fonts are read at run time from the directory
  named by `COLORFUL_PICKER_RESOURCES` (default: `resources`).
- `tests/` exercises the library on concrete values.
