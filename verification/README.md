# topdown_rpg

The rules of a small top-down RPG built on bevy, as a Verus-verified library,
with the bevy program around it in `app/`.

- `src/components.rs` — directions, whole-step velocities, animation frames.
- `src/player.rs` — steering from the arrow keys, sprite flipping, lasers,
  choosing the hero's sprite sheet, the hero's starting state.
- `src/animation.rs` — stepping animation frames and the repeating clock that
  paces them (ticked through bevy's `Timer`).
- `src/tilemap.rs` — laying out an ASCII map file as tiles and walls.
- `src/states.rs` — the phases of the game and the events that move it on.
- `app/` — the bevy systems: input, asset loading, spawning, and the
  floating-point movement and collision of entities.
