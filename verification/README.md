# stl_renderer

An STL model viewer built on wgpu and winit, with its data logic verified by Verus.

- `src/stl_format.rs`: the layout of binary STL files as specifications; decoding
  through the `stl` crate (one trusted wrapper); `load_mesh`, which turns file bytes
  into an indexed mesh or says why it cannot.
- `src/mesh.rs`: merging triangle corners into an indexed mesh (each distinct vertex
  stored once, in order of first use), with the laws of that merge.
- `src/input.rs`: the viewer's decisions on window and mouse events, as a state
  machine with its laws.
- `app/main.rs`: the window, the GPU pipeline, the floating-point camera and vertex
  placement, and the event loop that carries out the library's decisions.
