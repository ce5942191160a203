# falling_sand

A GPU falling-sand simulation: each frame an intent pass lets every grid cell
choose a move, a resolve pass applies the moves into the other grid buffer,
and a render pass draws the grid.

- `src/` is the verified library: the codes the shaders read
  (`structures`), the sizes and initial contents of the state buffers
  (`resources`), which buffers each of the two alternating frame slots binds
  (`frames`), the per-frame decisions of a window's graphics (`graphics`)
  and the application's reaction to window events (`application`).
- `app/` is the program: the winit event loop and the wgpu device, buffers,
  pipelines and passes, all driven by the library's decisions. It reads the
  WGSL shaders (`compute_shader_intent.wgsl`, `compute_shader_resolve.wgsl`,
  `render_shader.wgsl`) from the directory named by `FALLING_SAND_SHADERS`,
  or `shaders/` by default.
