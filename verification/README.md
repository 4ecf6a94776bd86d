# megablast

A vertical-scrolling shoot-'em-up with wave-based enemies and an upgrade
shop between levels.

- `src/` is the verified library: level scripts (`levels`), and under
  `game/` the state machine and discrete rules of a run -- the spawn
  scheduler (`waves`), the weapon tree and volleys (`weapons`), the shop
  economy (`shop`), the ship's hit points, lives and invulnerability
  (`player`), enemy hit points, scores, credits and drops (`enemies`),
  and what each tick's collisions lead to (`hits`).
  Distances are whole pixels and durations whole microseconds.
- `app/` is the windowed program around it: the winit event loop, the
  wgpu/glyphon renderer, and the floating-point world (positions,
  movement patterns, collision geometry) that feeds its findings back into
  the library each tick.
- `tests/` exercises the library.
