# nrho_engine

The verified core of an astrodynamics engine for Near-Rectilinear Halo Orbit
mission planning (CR3BP propagation, Clohessy-Wiltshire rendezvous, entry,
descent and landing).

- `src/` is the Verus library: the flight-phase decisions of the descent loop
  (`edl`), the shape of a fixed-step propagation history (`propagation`), and
  the layout and downsampling of telemetry (`telemetry`). Each function carries
  a contract that Verus proves.
- `app/` is the program around it: the floating-point physics (equations of
  motion, RK4, the CW state-transition matrix, the drag model, statistics) and
  `main`, which runs the three demonstrations.
- `tests/` exercises the library on concrete values.
