# hyperdrive

The verified core of a radio-interferometry simulation and calibration suite.

- `src/` is the library. Every function states what it does in `requires` and
  `ensures` clauses, and Verus proves them.
  - `binary64`: double-precision quantities as bit patterns, and how they
    compare.
  - `arrays`: two-dimensional arrays.
  - `copies`: copies of lists.
  - `text`: numbers and bytes as text.
  - `non_empty`: lists that cannot be empty.
  - `gpu`: what devices report, and how baselines are shared out over them.
  - `beam`: beam types, dipole delays, the set-up of beam objects, and the
    tables that devices work with.
  - `params`: calibration. Memory, weights, the threads that load data, modelling
    by shards, and the gathering of solutions.
  - `cli`: the arguments of SKA-Low simulations, merged and made sense of.
- `tests/` runs the library.
- `app/` is ordinary Rust around it: floating-point beam responses, threads,
  devices and the command line.

Floating-point arithmetic is not verified. The library carries such quantities
as bit patterns, decides by comparing them, and takes the arithmetic itself as
closures.
