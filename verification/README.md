# nesemu

A NES emulator core whose behaviour is specified and proved with Verus.

`src/` is the verified library. Every machine state has a mathematical view
(`ConsoleState`, `PpuState`, `CartState`), and every operation is described by a
spec function that returns the next state, or `None` on exactly the inputs the
machine does not define; the executable functions require `Some` and return
what the spec gives. Beside them stand checked forms (`read_defined`,
`ppu_step_defined`, `try_interpret_opcode`, `try_run_cycle`, ...) that tell,
with the same exactness, whether an operation is defined, so that a caller
without a proof can test before it acts.

- `cartridge`, `mapper`: iNES images and the cartridge's view of the CPU bus.
- `memory`: the CPU bus (RAM, PPU and APU registers, cartridge) and the PPU's
  own address space.
- `ppu`: PPU state, the frame buffer and the dot-by-dot renderer.
- `apu`, `controller`, `cpu`, `console`: the other parts of the machine.
- `opcodes`: the instruction interpreter; `interrupt`: NMI entry;
  `machine`: the master clock that ties CPU, NMI and PPU together.
- `disasm`: opcode names and the trace listing.
- `simple_memory`: a minimal bus of RAM and ROM with few devices.
- `laws`: properties proved across operations.

`app/` is the front end: file loading, the debugger on standard input, and the
SDL window. `tests/` runs the library on concrete programs.
