# arctic_drone_sim

Simulation of drone flights through Arctic wind fields, split in two:

- `src/` is the verified library (Verus). It holds the discrete logic of the
  simulator: the cell indexing behind trilinear interpolation of a wind grid
  (`grid`), the signed wavenumber index of each FFT bin used by the spectral
  turbulence synthesis (`spectral`), the termination decisions and step
  bookkeeping of a simulation run (`run_control`), the wind-grid I/O error type
  with its component shape check (`io`), and configuration defaults and the
  output naming of formation runs (`config`).
- `app/` is the command-line runner and everything floating point: drone
  physics, controllers, missions, analytical and Mann turbulence fields, grid
  sampling and interpolation weights, and file output. It calls the library for
  the decisions above. Formation runs (a leader with followers) and the
  horizontal cruise-speed cap of the PID controller are refused with an error
  by this runner, since it has no multi-drone runner or speed-capped
  controller; the library's `formation_names` is not called by it.
