# city-builder (verified core)

The logic of a small Bevy city builder, verified with Verus.

- `src/city.rs` — the city as data: blocks, zones, pieces (in milli-units,
  local to a block) and the specification of every block's layout.
- `src/city_layout.rs` — laying out a block's pieces and the grid of blocks.
- `src/city_rng.rs` — the random draws (through `rand`) and the plan of a city.
- `src/city_laws.rs` — what holds of every planned block and of the grid.
- `src/placement.rs` — the road-placement state machine and its laws.
- `src/camera.rs`, `src/cli.rs`, `src/palette.rs` — camera key decisions,
  launch options, colours.
- `app/` — the Bevy application: rendering, input, floating-point geometry and
  the density noise.
