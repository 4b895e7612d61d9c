# n32903 peripheral logic, verified

Peripheral logic for the Nuvoton N32903 (W55FA93) ARM926EJ-S SoC, written
in Verus and proved against its contracts.

- `src/` — the verified library (crate `lib`). Each driver operation is a
  function from the register values it reads to the register values it
  writes (or to a list of `RegOp` steps for sequences), together with the
  state the drivers keep between calls: the clock record, the timer event
  scheduler, the cache state and the I2C device. Contracts are stated over
  spec functions; laws that span operations are public proof functions.
- `tests/` — executable tests of the library on concrete values.
- `app/` — the board-support shell: volatile register access, CP15 and
  CPSR operations, SRAM-resident sequences, interrupt handler tables,
  callbacks, and the floating-point PWM frequency computation. It calls the
  library for every value it writes.
