# mk20dx-hal

A hardware abstraction layer for the NXP/Freescale Kinetis K20 (MK20DX256)
microcontroller, written in Verus.

## Layout

- `src/` is the verified library. A driver does not touch memory-mapped
  registers itself: each operation computes the *register program* it stands
  for (`regs::RegOp`: writes, read-modify-writes, polls and reads, each with
  its address and width), and decodes the register values it is given back.
  Every such function states in its contract exactly which program it returns
  and what it decides from the values read, so the clock tree set-up, baud
  rate and divider searches, DMA descriptors, USB buffer-descriptor
  bookkeeping, flash protection checks and the rest are proved against their
  specifications. Flows that wait on hardware (polling a flag, stepping a
  transaction) are split into step functions from state and register value to
  next state and program.
- `app/` is plain Rust around the library: it executes register programs on
  the device, runs the polling loops, holds the flash configuration field and
  static buffers, and implements the `embedded-hal`, `embedded-io`,
  `embedded-storage` and `usb-device` traits on top of the verified drivers.
- `tests/` runs the library on concrete values, including small register-file
  simulations that execute returned programs.
