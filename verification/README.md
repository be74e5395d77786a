# wave_engine

The core of the Wave game engine, written in Verus: the engine's data,
decisions and bookkeeping are executable Rust whose behaviour is stated in
`requires` / `ensures` contracts and proved.

## Layout

- `src/` — the verified library.
  - `events.rs`, `input.rs`: engine events and the event masks that layers
    poll (a boolean algebra over 16 bits, with its laws proved).
  - `layers.rs`, `engine.rs`: the layer stack (kept in priority order), the
    engine's life cycle and the frame counter.
  - `window.rs`: window options, the hints they give, the polling channels of
    an event mask, and the window's reaction to events.
  - `hints.rs`, `strings.rs`: hint lists in which each kind occurs once, and
    character-level string helpers (search, split, decimal and padding).
  - `graphics/`: the renderer and its options; the OpenGL back end's
    decisions (which API calls its options become, how primitives are laid
    out in shared buffers and batched into draw commands, the render plan);
    buffers, uniform blocks, textures and texture arrays, shaders and their
    preparation, colors, the debug message text, and the Vulkan device
    choices.
  - `assets/`: renderable entities (vertices, primitives, texture mapping),
    and the options of the asset importer.
  - `utils/`: the texture loader's settings.
- `tests/` — tests of the library on concrete values.
- `app/` — the editor program: it reads files, loads images and shaders and
  makes the OpenGL calls that the library plans.

Calls into the graphics API are not made by the library: its functions
return the calls, writes and uploads to make, and take the objects the API
created as arguments. `Renderer::enqueue` gives an entity its identifier and
has the context queue it (`GlContext::enqueue`): the buffers of a shader's
first entity, the layout of its primitives, their uploads, the draw command
and the camera block. Random numbers come from the `rand` crate through
trusted wrappers in `src/random.rs`.
