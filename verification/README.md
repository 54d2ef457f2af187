# clunker

A small Vulkan viewer that loads the model of a goat from a glb (glTF) file,
renders it, and plays a short sound.

- `src/` is the verified library: little-endian word streams (`words`), the
  model read from a glTF document and its upload to the GPU (`model`,
  `rectangle`), the renderer's state and per-frame decisions (`renderer`,
  `descriptor`), the decisions of the window's event loop (`events`), the
  Vulkan values these are made of (`gpu`), and the token structure of a glb
  file (`glb_file`). Floats are carried as their bit patterns.
- `app/` is the program around it: it imports the glTF file with `gltf`,
  opens the window with `winit`, plays the sound with `rodio`, and makes the
  calls into Vulkan and the vulkan_helper C library that the library plans.
