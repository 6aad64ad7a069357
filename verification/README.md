# battle_royale_os

The verified core of a bare-metal battle-royale unikernel, written in Verus.

- `src/` is the library, each function with a contract that Verus proves:
  the UDP wire protocol and its packets, the shared game rules (states,
  weapons, the storm's schedule, loot), framebuffer drawing and the menu
  screens, triangle set-up, tile binning and scheduling, voxel models, DMA
  pages and MMIO mapping plans, frame timing and the core barrier.
- `app/` is the kernel around it: boot, port and memory I/O, the network
  stack, the floating-point renderer and meshes, and the frame loop.
- `tests/` runs the library on concrete values.
