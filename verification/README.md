# froginity

The verified core of Froginity, a side-scrolling game in which a frog jumps
over obstacles and ducks under birds.

- `src/` is the library, verified with Verus: keyboard edge detection
  (`input`), the frame-level control decision (`game`), the score display and
  its overlay panels (`ui`), sprite texel expansion and surface size
  bookkeeping (`renderer`), and the quad index list and its index-buffer bytes
  (`sprite`).
- `app/` is the program around it: the window and event loop, the
  floating-point physics, scrolling and collisions, and the GPU renderer.
- `tests/` exercises the library on concrete values.
