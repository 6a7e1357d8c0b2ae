# coffee_sim_wasm

The discrete core of a pour-over coffee simulator, verified with Verus: the
scene presets and debug-scene catalog, the pressure-solver catalog, the
per-substep compute schedule and how it is issued, the particle pool and its
drop counters, the layout of the GPU buffers, the integer side of the coffee
bed (lattice numbering, cell lookup, support counts), of the kettle inflow and
of the water diagnostics, the filter's render-mesh topology, and the offline
profiling harness (solver catalog, command-line options, environment, run
plan, dry-run report and timestamp slots).

- `src/` is the verified library. Every module states its behaviour as
  `requires`/`ensures` contracts over spec functions, and the laws that tie
  functions together are public proof functions (`lemma_*`).
- `tests/` runs the library on concrete values.
- `app/` holds what Verus cannot check: reading the environment and the
  process arguments, printing, JSON output through serde, and the
  floating-point parts of the scene (units, brew recipe, filter cone and
  mesh positions, bed layout, inflow kinematics, the residual-driven pressure
  budget and the water diagnostics).
