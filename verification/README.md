# A type-safe graphics crate, with its contracts proved

A backend-agnostic graphics API: buffers, textures, framebuffers, tessellations, shader programs,
render states and the pipeline gates that tie them together. The functions of `src/` are
verified by Verus, most of them against a `requires` / `ensures` contract; those whose result a
backend alone decides (a mapping, a bare context access) say what holds whatever it returns, or
nothing where nothing does.

## Layout

- `src/` — the library, verified by Verus.
  - `backend/` — the traits a graphics backend implements (buffers, textures, framebuffers,
    tessellations, shaders, pipelines and gates). Their contracts state what the front types
    document of backends, over specification functions that each backend defines; the front
    types are proved correct under them.
  - `buffer`, `texture`, `framebuffer`, `tess`, `shader` — the front types, built on a backend
    reached through a `GraphicsContext` (`context`).
  - `pipeline`, `shading_gate`, `render_gate`, `tess_gate` — the nodes of a render.
  - `pixel`, `vertex`, `blending`, `depth_test`, `face_culling`, `render_state` — formats and
    states, with their sizes, normalizations and messages.
  - `conversions`, `ranges` — the contracts given to the few std items the library relies on.
- `tests/` — tests, most of them against small backends written in the test files.
- `app/` — what holds floating-point values (the pipeline state and its entry point, the
  floating-point pixel formats) and the byte reading of deinterleaved attribute sets.
