# ppe — Planetary Particle Engine, verified core

A simulated electric-vehicle software stack. The library in `src/` holds the
decisions, proved with Verus against their contracts:

- `can`: CAN identifiers and frames, filters, frame encoding, a bounded log.
- `state`: the vehicle state machine and the subsystem states.
- `subsystems`: what the BMS, motor, thermal and Ener-D reactor decide from
  their readings (states, trouble codes, published frames).
- `diagnostics`: the trouble-code manager and the OBD-II answers.
- `scheduler`: earliest-deadline-first bookkeeping and a watchdog.
- `sim`: scripted driving scenarios.

`app/` is the program around it: the threaded virtual bus, floating-point
physics and sensor readings, the terminal dashboard, and the `daemon` and
`diag` commands. `tests/` runs the library on concrete values.
