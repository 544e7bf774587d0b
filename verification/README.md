# SuperTuxShowdown logic, verified

The game logic of SuperTuxShowdown as a verified library.

- `src/input.rs`: input buffering (`ActionTime`, `ActionStateInner`,
  `ActionState`, `ActionBuffer`, `HeldInputs`) and the laws of the buffer
  window.
- `src/action.rs`: the fighter's action state machine (`Action`, `Player`,
  `player_movement`), the inputs each action accepts, hitstun and launch
  angles.
- `src/editor.rs`: the frame tool's editing flow.
- `src/asset.rs`: asset paths as plain values, and where a character's model file is found.
- `src/selection.rs`, `src/anim.rs`: debug clicks and animation rules.

`app/` holds the Bevy game and frame tool around the library: rendering,
physics, input devices, asset loading, and everything floating point.
