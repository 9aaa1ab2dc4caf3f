# my_graphics

A small immediate-mode 2D graphics library: a drawing thread queues
triangles, lines, Bezier curves and text through a `Window` handle, and hands
each frame to an event loop that renders it with wgpu.

- `src/` is the verified library (Verus): the drawing commands, the
  per-frame command buffer and colour stack of a window, the input state and
  the decisions of the event loop, the triangle batching and picture cache of
  the renderer, the surface size kept by the backend, and which texts the
  backend must lay out (one layout per text and colour, reused across
  frames). Coordinates and colours are carried as
  the bit patterns of single-precision numbers; the library never computes
  with them.
- `app/` is the unverified shell: the winit event loop, the channel and the
  lock between the two threads, and the wgpu/glyphon backend, including the
  floating-point conversion to device coordinates and the tessellation of
  Bezier curves.
- `tests/` runs the library on concrete values.
