# ifs3d

A viewer for three-dimensional iterated function systems: points walk over a
fractal and over a bottom plane, are depth-tested into a 2x2-supersampled view
and into a shadow map, and are shaded by a random palette.

- `src/` is the verified library (Verus). It holds everything that is integer
  logic: packed colours, the frame buffers and their 2x2 resolve, depth-tested
  plotting and the shadow test, palette cycling, colour blending and
  correction, the fractal walker's integer state machine (runs, the symmetry
  coin and its bit counter, symmetry decisions, palette indices), the bottom
  walker's colour, and the keyboard/session state machine.
- `app/` is the window program (minifb). It keeps what is floating point
  (projection, lighting calibration, the fractal transforms, palette
  synthesis, point moves) and drives the library.
- `tests/` exercises the library on concrete values.
