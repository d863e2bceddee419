# blasterball

A paddle-and-ball game for bare x86-64 hardware, with the libraries it runs
on, written in Verus.

- `src/` is the library, every function of it verified against its
  contract: the keyboard scancode decoder, the physics and the game's rules,
  drawing and text output, the memory map and the allocator over it, the
  heap's free list and the collections built on it, the event hooker, the
  descriptor tables, the interrupt controllers, the real-time clock, the
  ACPI tables used to power off, the WAV reader, and the registers, codec
  commands, widget graph and streams of the HDA sound controller.
  Contracts are stated over spec functions and views; the public proof
  functions state the laws that relate several operations (a hook undone by
  an unhook, queue order, keys never pushing the paddle through a wall, and
  the bit-field laws the register types rest on).
- `app/` is the machine side: port and memory-mapped I/O, the start from the
  BIOS or from UEFI firmware (memory map, graphics mode, descriptor tables,
  heap, panic output), the interrupt handlers, the sound device's register
  traffic and the game loop. It hands the library
  plain values and performs what the library decides.
- `tests/` runs the library on concrete values.
