# vkdemo

A Vulkan demo that shows a scene with shadows, ambient occlusion and deferred lighting, and a
small variant that draws the same scene in a single pass.

- `src/` holds the decisions that are made on whole numbers, verified with Verus: what the driver is
  asked to create and in which steps, which commands a frame consists of, how a frame runs its
  course, how a scene is laid out in memory and where events go. Nothing in it talks to a driver or a window; handles are numbers,
  and numbers that are not whole are carried as their bits.
- `src/outside.rs` holds the few calls into other crates that the library makes, with what it
  believes of them.
- `app/` carries the decisions out: window, driver, scene file, user interface, and all arithmetic
  on real numbers.
- `tests/` runs the library on concrete values.

The program expects the scene at `assets/sponza.glb` and the compiled shaders under
`assets/shaders/`.
