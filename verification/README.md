# shared_lib

Building blocks for small OpenGL programs: vertex layouts and attribute
pointers, buffer and vertex array bookkeeping, shader programs with a uniform
location cache, texture builders and a texture manager, font atlas packing,
keyboard state between frames, and the enumerations OpenGL expects.

- `src/` is the library, verified with Verus. It decides what is drawn,
  uploaded, cached, refused and reported; every OpenGL call it needs is made
  by a closure or command that the caller supplies or performs.
- `app/` makes those calls: OpenGL through the `gl` crate, windows and input
  through `sdl2`, images through `image`, glyph rasterization through
  `rusttype`, and everything computed in floating point (cameras,
  projections, angles, shapes, text layout).
- `tests/` runs the library on concrete values.
