# particles

A particle simulation on the GPU, shown in a window through Vulkan.

- `src/` is the library: the program's decisions on integers and states, verified with Verus. `device` chooses the
  physical device, `setup` and `particles` plan the buffers and their first contents, `pressure`
  and `camera` hold small rules of the simulation, and `renderer` takes a frame step by step
  through the actions and answers of `frame`. `laws` states what holds over whole frames and runs.
- `app/` is the program: it performs the renderer's actions with vulkano and winit, and holds the
  fixed settings of the render pass and the floating-point arithmetic of the matrix. Start it with
  the directory of the compiled shaders (`compute.spv`, `vertex.spv`, `fragment.spv`) and the
  number of cells of the pressure grid.
- `tests/` runs the library with plain numbers in place of Vulkan objects.
