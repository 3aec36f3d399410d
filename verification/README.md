# vkjam

A small Vulkan game for aquaBSD, split in two:

- `src/` is the verified library: the argument a Vulkan context is created
  with (`vk_context`), the choice of memory type and allocation for buffers
  and images (`memory`), the swapchain settings and frame acquisition
  (`swapchain`), and SPIR-V decoding of compiled shaders (`shader`).
- `app/` is the program around it: windows and Vulkan contexts served by the
  aquaBSD devices, Vulkan calls through `ash`, and the floating-point camera
  matrices.
- `tests/` runs the library on concrete values.
