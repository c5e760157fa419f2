# cathedral

The rules of a small arena shooter, verified with Verus, and the Bevy
application that plays them.

- `src/` is the verified library: the game-state machine (`state`), the
  arenas and how their pieces are laid out in the world (`geometry`, `maps`,
  `map`), the enemies' decisions and attack rhythm (`enemies`), the player's
  movement keys (`player`), the ragdoll skeleton, how its bodies drive the
  bones, when it is built and goes loose, and the kick a killing shot gives
  (`ragdoll`), and the shooting and interface rules (`shooting`, `ui`).
  Lengths are whole millimetres, durations whole microseconds, yaws quarter
  turns; colours are percent channels.
- `app/` is the Bevy and Avian program around it: it converts those units to
  the engine's floating point ones, does the physics queries, the spawning,
  the animation and the rendering, and asks the library what to do.
- `tests/` runs the library on concrete values.
